use zk_interval::encoding::is_hex_text;

#[test]
fn hex_text_has_an_even_number_of_hex_digits() {
    assert!(is_hex_text(""));
    assert!(is_hex_text("00"));
    assert!(is_hex_text("0123456789abcdefABCDEF"));
    assert!(!is_hex_text("0"));
    assert!(!is_hex_text("abc"));
    assert!(!is_hex_text("0g"));
    assert!(!is_hex_text("0x00"));
    assert!(!is_hex_text(" 00"));
    assert!(!is_hex_text("\u{e9}"));
}
