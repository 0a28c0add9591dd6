use hello_mcp::text::{integer_part_i32, push_decimal, starts_with, str_eq};

#[test]
fn integer_part_of_decimal_text() {
    assert_eq!(integer_part_i32("14.0"), Some(14));
    assert_eq!(integer_part_i32("14"), Some(14));
    assert_eq!(integer_part_i32("-2.75"), Some(-2));
    assert_eq!(integer_part_i32("-0.5"), Some(0));
    assert_eq!(integer_part_i32("-2147483648.9"), Some(i32::MIN));
    assert_eq!(integer_part_i32("2147483647.5"), Some(i32::MAX));
    assert_eq!(integer_part_i32("2147483648.0"), Some(i32::MAX));
    assert_eq!(integer_part_i32("-2147483649.0"), Some(i32::MIN));
    assert_eq!(integer_part_i32("99999999999999999999.0"), Some(i32::MAX));
    assert_eq!(integer_part_i32("3e2"), None);
    assert_eq!(integer_part_i32("1."), None);
    assert_eq!(integer_part_i32(".5"), None);
    assert_eq!(integer_part_i32("-"), None);
    assert_eq!(integer_part_i32(""), None);
}

#[test]
fn decimal_text() {
    let mut s = String::from("n=");
    push_decimal(&mut s, 0);
    assert_eq!(s, "n=0");
    let mut s = String::new();
    push_decimal(&mut s, 18446744073709551615);
    assert_eq!(s, "18446744073709551615");
}

#[test]
fn comparisons() {
    assert!(str_eq("氢", "氢"));
    assert!(!str_eq("氢", "氦"));
    assert!(!str_eq("ab", "abc"));
    assert!(starts_with("event: x", "event:"));
    assert!(!starts_with("even", "event:"));
}
