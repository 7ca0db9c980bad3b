use callwatch::text::{push_decimal, to_decimal};

#[test]
fn decimal_of_zero_and_digits() {
    assert_eq!(to_decimal(0), "0");
    assert_eq!(to_decimal(7), "7");
    assert_eq!(to_decimal(10), "10");
    assert_eq!(to_decimal(1234567890), "1234567890");
}

#[test]
fn decimal_of_max_matches_display() {
    assert_eq!(to_decimal(u64::MAX), u64::MAX.to_string());
    for n in [1u64, 99, 100, 1073325566196990142, 18446744073709551614] {
        assert_eq!(to_decimal(n), n.to_string());
    }
}

#[test]
fn push_decimal_appends() {
    let mut s = String::from("id=");
    push_decimal(&mut s, 305);
    assert_eq!(s, "id=305");
}

