use recipe_parser::error::ParseError;
use recipe_parser::path::decode_path;

#[test]
fn an_ascii_path_is_decoded() {
    let path = decode_path(b"/no/such/file.yaml").expect("valid UTF-8");
    assert_eq!(path, "/no/such/file.yaml");
}

#[test]
fn a_multibyte_path_is_decoded() {
    let raw = [0x72u8, 0x65, 0x63, 0x65, 0x74, 0x61, 0x73, 0x2F, 0xE3, 0x81, 0x8A, 0xE8, 0x8C, 0xB6];
    let path = decode_path(&raw).expect("valid UTF-8");
    assert_eq!(path, "recetas/\u{304A}\u{8336}");
    assert_eq!(path.chars().count(), 10);
    assert_eq!(path.as_bytes(), &raw);
}

#[test]
fn a_four_byte_character_is_decoded() {
    let path = decode_path(&[0xF0, 0x9F, 0x8D, 0xB5]).expect("valid UTF-8");
    assert_eq!(path, "\u{1F375}");
}

#[test]
fn an_empty_path_is_an_invalid_argument() {
    assert!(matches!(decode_path(b""), Err(ParseError::InvalidArgument)));
}

#[test]
fn a_stray_byte_is_an_encoding_error() {
    assert!(matches!(decode_path(&[0x61, 0xFF, 0x62]), Err(ParseError::PathEncoding)));
}

#[test]
fn a_cut_off_character_is_an_encoding_error() {
    assert!(matches!(decode_path(&[0x61, 0xE3, 0x81]), Err(ParseError::PathEncoding)));
}

#[test]
fn an_overlong_encoding_is_an_encoding_error() {
    assert!(matches!(decode_path(&[0xC0, 0xAF]), Err(ParseError::PathEncoding)));
}

#[test]
fn an_encoded_surrogate_is_an_encoding_error() {
    assert!(matches!(decode_path(&[0xED, 0xA0, 0x80]), Err(ParseError::PathEncoding)));
}

#[test]
fn a_lone_continuation_byte_is_an_encoding_error() {
    assert!(matches!(decode_path(&[0x80]), Err(ParseError::PathEncoding)));
}
