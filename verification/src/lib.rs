//! A fixed-width bit vector backed by a single 64-bit word.
//!
//! [`BitArray`] supports construction from an integer or a binary-digit
//! string, conversion back to either representation, and single-bit
//! get/set/flip operations. Bit indices count from the least-significant
//! bit; index `n` is valid for `0 <= n <= 63`, and every bit operation
//! requires a valid index rather than wrapping or panicking.

pub mod binary;

use vstd::prelude::*;

verus! {

/// True exactly when bit `n` (counted from the least-significant bit)
/// is set in `w`.
pub open spec fn nth_bit(w: u64, n: u64) -> bool
    recommends
        n < 64,
{
    w & (1u64 << n) != 0
}

/// The word `w` with bit `n` forced to `b` and every other bit unchanged.
pub open spec fn with_bit(w: u64, n: u64, b: bool) -> u64
    recommends
        n < 64,
{
    if b {
        w | (1u64 << n)
    } else {
        w & !(1u64 << n)
    }
}

/// The word `w` with bit `n` toggled and every other bit unchanged.
pub open spec fn flipped(w: u64, n: u64) -> u64
    recommends
        n < 64,
{
    w ^ (1u64 << n)
}

/// Forcing bit `n` to `b` makes bit `n` read back as `b` and leaves
/// every other bit as it was.
pub proof fn lemma_with_bit(w: u64, n: u64, b: bool)
    by (bit_vector)
    requires
        n < 64,
    ensures
        nth_bit(with_bit(w, n, b), n) == b,
        forall|m: u64| m < 64 && m != n ==> nth_bit(with_bit(w, n, b), m) == nth_bit(w, m),
{
}

/// Toggling bit `n` inverts bit `n` and leaves every other bit as it was.
pub proof fn lemma_flipped(w: u64, n: u64)
    by (bit_vector)
    requires
        n < 64,
    ensures
        nth_bit(flipped(w, n), n) == !nth_bit(w, n),
        forall|m: u64| m < 64 && m != n ==> nth_bit(flipped(w, n), m) == nth_bit(w, m),
{
}

/// Toggling the same bit twice restores the original word.
pub proof fn lemma_flip_twice(w: u64, n: u64)
    by (bit_vector)
    requires
        n < 64,
    ensures
        flipped(flipped(w, n), n) == w,
{
}

/// A bit vector of exactly 64 bits, stored as one unsigned word.
pub struct BitArray {
    words: u64,
}

impl View for BitArray {
    type V = u64;

    closed spec fn view(&self) -> u64 {
        self.words
    }
}

impl BitArray {
    /// Returns a bit vector with every bit clear.
    pub fn new() -> (r: BitArray)
        ensures
            r@ == 0,
    {
        BitArray { words: 0 }
    }

    /// Returns the whole word as an unsigned integer.
    pub fn as_number(&self) -> (r: u64)
        ensures
            r == self@,
    {
        self.words
    }

    /// Overwrites the whole word with `n`, replacing the previous value.
    pub fn from_number(&mut self, n: u64)
        ensures
            final(self)@ == n,
    {
        self.words = n;
    }

    /// Parses `s` as a big-endian binary literal (most-significant bit
    /// first) and overwrites the whole word with the result. Any
    /// character other than `'1'` contributes a zero bit; the empty
    /// string yields zero; a string of more than 64 digits keeps the
    /// low 64 bits.
    pub fn from_binary(&mut self, s: &str)
        ensures
            final(self)@ == binary::binary_value(s@),
    {
        self.words = binary::parse_binary(s);
    }

    /// Renders the word in binary, most-significant bit first, with no
    /// leading zeros and `"0"` for the value zero.
    pub fn as_string(&self) -> (r: String)
        ensures
            r@ == binary::binary_repr(self@),
    {
        binary::render_binary(self.words)
    }

    /// Returns whether bit `n` is set.
    pub fn get(&self, n: u64) -> (r: bool)
        requires
            n < 64,
        ensures
            r == nth_bit(self@, n),
    {
        self.words & (1u64 << n) != 0
    }

    /// Forces bit `n` to `b`: sets it when `b` is true, clears it
    /// otherwise. Every other bit keeps its value. Returns an exclusive
    /// reference to `self` so that several calls can be chained, each
    /// applied in order to the same instance.
    pub fn set(&mut self, n: u64, b: bool) -> (r: &mut BitArray)
        requires
            n < 64,
        ensures
            (*r)@ == with_bit(old(self)@, n, b),
            nth_bit((*r)@, n) == b,
            forall|m: u64| m < 64 && m != n ==> nth_bit((*r)@, m) == nth_bit(old(self)@, m),
            *final(self) == *final(r),
    {
        proof {
            lemma_with_bit(self.words, n, b);
        }
        if b {
            self.words = self.words | (1u64 << n);
        } else {
            self.words = self.words & !(1u64 << n);
        }
        self
    }

    /// Toggles bit `n`. Every other bit keeps its value.
    pub fn flip(&mut self, n: u64)
        requires
            n < 64,
        ensures
            final(self)@ == flipped(old(self)@, n),
            nth_bit(final(self)@, n) == !nth_bit(old(self)@, n),
            forall|m: u64| m < 64 && m != n ==> nth_bit(final(self)@, m) == nth_bit(old(self)@, m),
    {
        proof {
            lemma_flipped(self.words, n);
        }
        self.words = self.words ^ (1u64 << n);
    }
}

} // verus!
