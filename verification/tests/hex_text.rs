use chainhook_core::hex_text::to_ascii_lowercase;
use chainhook_core::matching::{
    bytes_end_with, bytes_equal, bytes_start_with, encode_pattern, op_return_data, without_0x,
};

#[test]
fn ascii_lowercase_touches_capital_letters_only() {
    assert_eq!(to_ascii_lowercase(b"0xABCdef@[`{Z"), b"0xabcdef@[`{z".to_vec());
    assert_eq!(to_ascii_lowercase(&[0xc3, 0x89, b'A']), vec![0xc3, 0x89, b'a']);
    assert_eq!(to_ascii_lowercase(b""), Vec::<u8>::new());
}

#[test]
fn patterns_are_brought_into_lowercase_hexadecimal() {
    assert_eq!(encode_pattern(b"Hello"), b"48656c6c6f".to_vec());
    assert_eq!(encode_pattern(b"0x48656C6C6F"), b"48656c6c6f".to_vec());
    assert_eq!(encode_pattern(b"0x"), Vec::<u8>::new());
    assert_eq!(encode_pattern(b"0X41"), b"30583431".to_vec());
    assert_eq!(encode_pattern(&[0x00, 0x0f, 0xf0, 0xff]), b"000ff0ff".to_vec());
}

#[test]
fn op_return_data_skips_opcode_and_length() {
    assert_eq!(op_return_data(b"0x6a0548656c6c6f"), Some(b"48656c6c6f".to_vec()));
    assert_eq!(op_return_data(b"6A0548656C6C6F"), Some(b"48656c6c6f".to_vec()));
    assert_eq!(op_return_data(b"0x6a4c"), Some(Vec::new()));
    assert_eq!(op_return_data(b"0x6a"), None);
    assert_eq!(op_return_data(b"0x"), None);
    assert_eq!(op_return_data(b"0x6b0548656c6c6f"), None);
    assert_eq!(op_return_data(b"0x6a054"), None);
    assert_eq!(op_return_data(b"0x6a05zz"), None);
}

#[test]
fn prefix_is_removed_once() {
    assert_eq!(without_0x(b"0xabcd"), b"abcd");
    assert_eq!(without_0x(b"abcd"), b"abcd");
    assert_eq!(without_0x(b"0x0xab"), b"0xab");
    assert_eq!(without_0x(b"0"), b"0");
}

#[test]
fn byte_strings_compare_by_content() {
    assert!(bytes_equal(b"abc", b"abc"));
    assert!(!bytes_equal(b"abc", b"abd"));
    assert!(!bytes_equal(b"abc", b"ab"));
    assert!(bytes_start_with(b"abc", b"ab"));
    assert!(bytes_start_with(b"abc", b""));
    assert!(!bytes_start_with(b"ab", b"abc"));
    assert!(bytes_end_with(b"abc", b"bc"));
    assert!(!bytes_end_with(b"abc", b"ab"));
    assert!(!bytes_end_with(b"bc", b"abc"));
}
