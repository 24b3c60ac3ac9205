use bitarray::BitArray;

#[test]
fn as_number() {
    let testcases: [(u64, u64); 7] = [
        (0, 0),
        (1, 1),
        (2, 2),
        (10, 10),
        (123, 123),
        (255, 255),
        (1024, 1024),
    ];

    for t in testcases.iter() {
        let mut a = BitArray::new();
        a.from_number(t.0);
        assert_eq!(a.as_number(), t.1);
    }
}

#[test]
fn from_number() {
    let testcases: [(u64, u64); 4] = [(0, 0), (1, 1), (37, 37), (255, 255)];

    for t in testcases.iter() {
        let mut a = BitArray::new();
        a.from_number(t.0);
        assert_eq!(a.as_number(), t.1);
    }
}

#[test]
fn from_binary() {
    let testcases: [(&str, u64); 11] = [
        ("", 0),
        ("x", 0),
        ("0", 0),
        ("1", 1),
        ("10", 2),
        ("11", 3),
        ("101", 5),
        ("00001000", 8),
        ("00000000", 0),
        ("11111111", 255),
        ("10011011", 155),
    ];

    for t in testcases.iter() {
        let mut a = BitArray::new();
        a.from_binary(t.0);
        assert_eq!(a.as_number(), t.1);
    }
}

#[test]
fn as_string() {
    let testcases: [(u64, &str); 9] = [
        (0, "0"),
        (1, "1"),
        (2, "10"),
        (3, "11"),
        (5, "101"),
        (8, "1000"),
        (0, "0"),
        (255, "11111111"),
        (155, "10011011"),
    ];

    for t in testcases.iter() {
        let mut a = BitArray::new();
        a.from_number(t.0);
        assert_eq!(a.as_string(), t.1.to_string());
    }
}

#[test]
fn set_on() {
    let testcases: [(u64, u64); 4] = [(0, 1), (1, 2), (2, 4), (3, 8)];

    for t in testcases.iter() {
        let mut a = BitArray::new();
        a.set(t.0, true);
        assert_eq!(a.as_number(), t.1);
    }
}

#[test]
fn set_off() {
    let testcases: [(u64, u64); 4] = [(0, 170), (1, 168), (2, 170), (3, 162)];

    for t in testcases.iter() {
        let mut a = BitArray::new();
        a.from_number(170);
        a.set(t.0, false);
        assert_eq!(a.as_number(), t.1);
    }
}

#[test]
fn get() {
    let testcases: [(u64, bool); 7] = [
        (0, true),
        (1, false),
        (2, true),
        (3, false),
        (4, true),
        (5, true),
        (6, true),
    ];

    let mut a = BitArray::new();
    a.set(0, true).set(2, true).set(4, true).set(5, true).set(6, true);

    for t in testcases.iter() {
        let b = a.get(t.0);
        assert_eq!(b, t.1);
    }
}

#[test]
fn flip() {
    let testcases: [((u64, u64), u64); 6] = [
        ((0, 0), 1),
        ((1, 0), 0),
        ((2, 0), 3),
        ((5, 1), 7),
        ((13, 2), 9),
        ((255, 7), 127),
    ];

    for t in testcases.iter() {
        let mut a = BitArray::new();
        a.from_number(t.0 .0);
        a.flip(t.0 .1);
        assert_eq!(a.as_number(), t.1);
    }
}
