use witchfile::encoding::{all_ascii, encoding_of, is_valid_utf8, TextEncoding};

#[test]
fn ascii_content_is_the_ascii_subset() {
    let bytes = b"plain ascii text\n".to_vec();
    assert!(is_valid_utf8(&bytes));
    assert!(all_ascii(&bytes));
    assert_eq!(encoding_of(&bytes), TextEncoding::AsciiText);
}

#[test]
fn empty_content_is_the_ascii_subset() {
    let bytes: Vec<u8> = vec![];
    assert_eq!(encoding_of(&bytes), TextEncoding::AsciiText);
}

#[test]
fn multibyte_content_is_unicode_text() {
    let bytes = "caf\u{e9} na\u{ef}ve \u{4e2d}\u{6587} \u{1f600}".as_bytes().to_vec();
    assert!(is_valid_utf8(&bytes));
    assert!(!all_ascii(&bytes));
    assert_eq!(encoding_of(&bytes), TextEncoding::UnicodeText);
}

#[test]
fn stray_bytes_are_binary() {
    assert_eq!(encoding_of(&[0xFF]), TextEncoding::Binary);
    assert_eq!(encoding_of(&[b'a', 0xFE, b'b']), TextEncoding::Binary);
    // a lone continuation byte cannot lead an encoding
    assert_eq!(encoding_of(&[0x80]), TextEncoding::Binary);
}

#[test]
fn truncated_sequences_are_binary() {
    assert_eq!(encoding_of(&[0xC3]), TextEncoding::Binary);
    assert_eq!(encoding_of(&[0xE4, 0xB8]), TextEncoding::Binary);
    assert_eq!(encoding_of(&[0xF0, 0x9F, 0x98]), TextEncoding::Binary);
}

#[test]
fn overlong_encodings_are_binary() {
    // U+0000 written in two bytes
    assert_eq!(encoding_of(&[0xC0, 0x80]), TextEncoding::Binary);
    // U+002F written in two bytes
    assert_eq!(encoding_of(&[0xC1, 0xAF]), TextEncoding::Binary);
    // U+0020 written in three bytes
    assert_eq!(encoding_of(&[0xE0, 0x80, 0xA0]), TextEncoding::Binary);
    // U+0800 written in four bytes
    assert_eq!(encoding_of(&[0xF0, 0x80, 0xA0, 0x80]), TextEncoding::Binary);
}

#[test]
fn surrogates_are_binary() {
    // U+D800, the first high surrogate
    assert_eq!(encoding_of(&[0xED, 0xA0, 0x80]), TextEncoding::Binary);
    // U+DFFF, the last low surrogate
    assert_eq!(encoding_of(&[0xED, 0xBF, 0xBF]), TextEncoding::Binary);
    // U+D7FF, just below the surrogate range, is fine
    assert_eq!(encoding_of(&[0xED, 0x9F, 0xBF]), TextEncoding::UnicodeText);
}

#[test]
fn the_scalar_range_ends_at_the_last_plane() {
    // U+10FFFF, the largest scalar
    assert_eq!(encoding_of(&[0xF4, 0x8F, 0xBF, 0xBF]), TextEncoding::UnicodeText);
    // one past it
    assert_eq!(encoding_of(&[0xF4, 0x90, 0x80, 0x80]), TextEncoding::Binary);
    // a leading byte past the four-byte forms
    assert_eq!(encoding_of(&[0xF8, 0x88, 0x80, 0x80, 0x80]), TextEncoding::Binary);
}

#[test]
fn the_checker_agrees_with_the_standard_library() {
    let cases: Vec<Vec<u8>> = vec![
        b"hello".to_vec(),
        vec![],
        "\u{e9}\u{4e2d}\u{1f600}".as_bytes().to_vec(),
        vec![0xC3, 0xA9, 0xFF],
        vec![0xE2, 0x82, 0xAC],
        vec![0xE2, 0x82],
        vec![0xC2, 0x80],
        vec![0xC2, 0x7F],
        vec![0x7F, 0x80],
    ];
    for bytes in cases {
        assert_eq!(
            is_valid_utf8(&bytes),
            std::str::from_utf8(&bytes).is_ok(),
            "bytes {bytes:?}"
        );
    }
}
