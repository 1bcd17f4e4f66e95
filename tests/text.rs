use valerie_core::order::str_less;
use valerie_core::text::{decimal_string, signed_decimal_string, Text};

#[test]
fn decimal_of_unsigned() {
    assert_eq!(decimal_string(0), "0");
    assert_eq!(decimal_string(7), "7");
    assert_eq!(decimal_string(10), "10");
    assert_eq!(decimal_string(1234567890), "1234567890");
    assert_eq!(decimal_string(u64::MAX), "18446744073709551615");
}

#[test]
fn decimal_of_signed() {
    assert_eq!(signed_decimal_string(0), "0");
    assert_eq!(signed_decimal_string(-5), "-5");
    assert_eq!(signed_decimal_string(42), "42");
    assert_eq!(signed_decimal_string(i64::MIN), "-9223372036854775808");
    assert_eq!(signed_decimal_string(i64::MAX), "9223372036854775807");
}

#[test]
fn text_of_values() {
    assert_eq!(Text::text(&-12i32), "-12");
    assert_eq!(Text::text(&12usize), "12");
    assert_eq!(Text::text(&true), "true");
    assert_eq!(Text::text(&false), "false");
    assert_eq!(Text::text(&String::from("hi")), "hi");
}

#[test]
fn string_order_matches_str_ord() {
    let words = ["", "a", "ab", "b", "B", "é", "a-b", "a0"];
    for x in words.iter() {
        for y in words.iter() {
            assert_eq!(str_less(x, y), x < y, "{} {}", x, y);
        }
    }
}
