use colb::text::{decimal_string, join2};

#[test]
fn decimal_of_zero() {
    assert_eq!(decimal_string(0), "0");
}

#[test]
fn decimal_of_single_digits() {
    assert_eq!(decimal_string(8), "8");
    assert_eq!(decimal_string(9), "9");
}

#[test]
fn decimal_of_round_numbers() {
    assert_eq!(decimal_string(10), "10");
    assert_eq!(decimal_string(100), "100");
    assert_eq!(decimal_string(1000000), "1000000");
}

#[test]
fn decimal_of_largest_count() {
    assert_eq!(decimal_string(u32::MAX), "4294967295");
}

#[test]
fn decimal_agrees_with_formatting() {
    for n in [1u32, 12, 123, 4096, 65535, 99999, 305419896] {
        assert_eq!(decimal_string(n), format!("{}", n));
    }
}

#[test]
fn join2_concatenates() {
    assert_eq!(join2("build/", "foo"), "build/foo");
    assert_eq!(join2("", "x"), "x");
    assert_eq!(join2("x", ""), "x");
}
