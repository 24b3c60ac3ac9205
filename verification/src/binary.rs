//! Conversion between 64-bit words and binary-digit strings.
//!
//! A binary string is read most-significant bit first: each character
//! doubles the accumulated value, and the character `'1'` contributes a
//! one bit while any other character contributes a zero bit. Values are
//! rendered with no leading zeros, using `"0"` for zero.

use vstd::prelude::*;

verus! {

/// The bit a single character contributes: one for `'1'`, zero for
/// anything else.
pub open spec fn char_bit(c: char) -> nat {
    if c == '1' {
        1
    } else {
        0
    }
}

/// The value a binary string denotes, read most-significant bit first
/// and truncated to 64 bits: each step doubles the accumulator modulo
/// `2^64` and adds the bit of the next character.
pub open spec fn binary_value(s: Seq<char>) -> u64
    decreases s.len(),
{
    if s.len() == 0 {
        0u64
    } else {
        ((2 * binary_value(s.drop_last()) + char_bit(s.last())) % 0x1_0000_0000_0000_0000) as u64
    }
}

/// The canonical binary rendering of `w`: most-significant bit first,
/// no leading zeros, `"0"` for zero.
pub open spec fn binary_repr(w: u64) -> Seq<char>
    decreases w,
{
    if w == 0 {
        seq!['0']
    } else if w == 1 {
        seq!['1']
    } else {
        binary_repr(w / 2).push(if w % 2 == 1 {
            '1'
        } else {
            '0'
        })
    }
}

/// Reading back the canonical rendering of a word recovers the word:
/// `binary_value` and `binary_repr` round-trip.
pub proof fn lemma_binary_round_trip(w: u64)
    ensures
        binary_value(binary_repr(w)) == w,
    decreases w,
{
    let s = binary_repr(w);
    if w == 0 {
        assert(s == seq!['0']);
        assert(binary_value(s.drop_last()) == 0);
        assert(char_bit(s.last()) == 0);
    } else if w == 1 {
        assert(s == seq!['1']);
        assert(binary_value(s.drop_last()) == 0);
        assert(char_bit(s.last()) == 1);
    } else {
        lemma_binary_round_trip(w / 2);
        assert(s.drop_last() =~= binary_repr(w / 2));
        assert(char_bit(s.last()) == w % 2);
        assert(binary_value(s) == ((2 * (w / 2) + w % 2) % 0x1_0000_0000_0000_0000) as u64);
        assert(2 * (w / 2) + w % 2 == w);
    }
}

/// Parses `s` as a big-endian binary literal, most-significant bit
/// first. Any character other than `'1'` contributes a zero bit; the
/// empty string yields zero; a string of more than 64 digits keeps the
/// low 64 bits.
pub fn parse_binary(s: &str) -> (r: u64)
    ensures
        r == binary_value(s@),
{
    let n: usize = s.unicode_len();
    let mut b: u64 = 0;
    let mut i: usize = 0;
    while i < n
        invariant
            n == s@.len(),
            i <= n,
            b == binary_value(s@.take(i as int)),
        decreases n - i,
    {
        let c = s.get_char(i);
        let bit: u64 = if c == '1' {
            1
        } else {
            0
        };
        proof {
            let t = s@.take(i + 1);
            assert(t.drop_last() =~= s@.take(i as int));
            assert(t.last() == s@[i as int]);
            assert((b << 1u64) | bit == ((2 * b + bit) % 0x1_0000_0000_0000_0000) as u64)
                by (bit_vector)
                requires
                    bit == 0 || bit == 1,
            ;
        }
        b = (b << 1u64) | bit;
        i = i + 1;
    }
    proof {
        assert(s@.take(n as int) =~= s@);
    }
    b
}

/// Renders `w` in binary, most-significant bit first, with no leading
/// zeros and `"0"` for zero.
pub fn render_binary(w: u64) -> (r: String)
    ensures
        r@ == binary_repr(w),
    decreases w,
{
    proof {
        reveal_strlit("0");
        reveal_strlit("1");
    }
    if w == 0 {
        let r = "0".to_owned();
        proof {
            assert(r@ =~= binary_repr(w));
        }
        r
    } else if w == 1 {
        let r = "1".to_owned();
        proof {
            assert(r@ =~= binary_repr(w));
        }
        r
    } else {
        let mut r = render_binary(w / 2);
        if w % 2 == 1 {
            r.append("1");
        } else {
            r.append("0");
        }
        proof {
            assert(r@ =~= binary_repr(w));
        }
        r
    }
}

} // verus!
