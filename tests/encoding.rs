use dot_ring::bits::text_to_binary;
use dot_ring::number::push_decimal;
use dot_ring::number::push_fixed;

#[test]
fn letter_a_bits_least_significant_first() {
    let bits = text_to_binary("A").unwrap();
    assert_eq!(bits, vec![true, false, false, false, false, false, true, false]);
}

#[test]
fn ascii_text_gives_eight_bits_per_char() {
    let bits = text_to_binary("hello").unwrap();
    assert_eq!(bits.len(), 40);
    // 'h' is 0x68 = 0b0110_1000
    assert_eq!(&bits[0..8], &[false, false, false, true, false, true, true, false]);
}

#[test]
fn empty_text_gives_no_bits() {
    assert_eq!(text_to_binary(""), Some(vec![]));
}

#[test]
fn non_ascii_anywhere_is_rejected() {
    assert_eq!(text_to_binary("é"), None);
    assert_eq!(text_to_binary("abcé"), None);
    assert_eq!(text_to_binary("éabc"), None);
    assert_eq!(text_to_binary("ab\u{80}c"), None);
}

#[test]
fn highest_ascii_char_is_accepted() {
    let bits = text_to_binary("\u{7f}").unwrap();
    assert_eq!(bits, vec![true, true, true, true, true, true, true, false]);
}

#[test]
fn decimal_numerals() {
    let mut out = String::new();
    push_decimal(&mut out, 0);
    out.push(' ');
    push_decimal(&mut out, 907);
    out.push(' ');
    push_decimal(&mut out, u128::MAX);
    assert_eq!(out, format!("0 907 {}", u128::MAX));
}

#[test]
fn fixed_point_numerals() {
    let mut out = String::new();
    push_fixed(&mut out, 14200);
    out.push(' ');
    push_fixed(&mut out, 5);
    out.push(' ');
    push_fixed(&mut out, 1050);
    assert_eq!(out, "14.200 0.005 1.050");
}
