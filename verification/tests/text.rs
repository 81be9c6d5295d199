use sacp_connection::text::{decimal_string, keep_tail, signed_decimal_string};

#[test]
fn decimal_numerals() {
    assert_eq!(decimal_string(0), "0");
    assert_eq!(decimal_string(907), "907");
    assert_eq!(decimal_string(u64::MAX), u64::MAX.to_string());
    assert_eq!(signed_decimal_string(-9), "-9");
    assert_eq!(signed_decimal_string(i32::MIN), i32::MIN.to_string());
    assert_eq!(signed_decimal_string(15), "15");
}

#[test]
fn keep_tail_cuts_at_character_boundaries() {
    assert_eq!(keep_tail("hello", 5), "hello");
    assert_eq!(keep_tail("hello", 2), "lo");
    assert_eq!(keep_tail("aé€𝄞", 9), "é€𝄞");
    assert_eq!(keep_tail("aé€𝄞", 8), "€𝄞");
    assert_eq!(keep_tail("aé€𝄞", 3), "");
    assert_eq!(keep_tail("x", 0), "");
}
