use timeturner::decimal::{push_digits, push_padded, push_signed};

fn padded(n: u64, width: usize) -> String {
    let mut out = String::new();
    push_padded(&mut out, n, width);
    out
}

fn signed(n: i64) -> String {
    let mut out = String::new();
    push_signed(&mut out, n);
    out
}

#[test]
fn padding_fills_with_zeros() {
    assert_eq!(padded(0, 2), "00");
    assert_eq!(padded(7, 2), "07");
    assert_eq!(padded(42, 2), "42");
    assert_eq!(padded(7, 3), "007");
    assert_eq!(padded(70, 3), "070");
    assert_eq!(padded(999, 3), "999");
}

#[test]
fn padding_never_cuts() {
    assert_eq!(padded(1999, 3), "1999");
    assert_eq!(padded(0, 0), "0");
    assert_eq!(padded(5, 1), "5");
    assert_eq!(padded(u64::MAX, 2), "18446744073709551615");
}

#[test]
fn padding_agrees_with_format() {
    for n in 0..2100u64 {
        assert_eq!(padded(n, 2), format!("{:02}", n));
        assert_eq!(padded(n, 3), format!("{:03}", n));
    }
}

#[test]
fn digits_append() {
    let mut out = String::from("n=");
    push_digits(&mut out, 1203);
    push_digits(&mut out, 0);
    assert_eq!(out, "n=12030");
}

#[test]
fn sign_is_always_there() {
    assert_eq!(signed(0), "+0");
    assert_eq!(signed(15), "+15");
    assert_eq!(signed(-15), "-15");
    assert_eq!(signed(i64::MAX), "+9223372036854775807");
    assert_eq!(signed(i64::MIN), "-9223372036854775808");
}

#[test]
fn text_reads_back() {
    for n in [0i64, 1, -1, 99, -100, 123456789, i64::MIN, i64::MAX] {
        assert_eq!(signed(n).parse::<i64>().unwrap(), n);
    }
    for n in [0u64, 9, 10, 1000, u64::MAX] {
        assert_eq!(padded(n, 6).parse::<u64>().unwrap(), n);
    }
}
