use brotli_boundary::text::{scan_to_terminator, text_from_bytes};
use brotli_boundary::{get_version, BoundaryError};

#[test]
fn scan_stops_at_the_first_zero_byte() {
    assert_eq!(scan_to_terminator(b"abc\0def"), 3);
    assert_eq!(scan_to_terminator(b"abc\0def\0"), 3);
    assert_eq!(scan_to_terminator(b"\0"), 0);
    assert_eq!(scan_to_terminator(b"\0\0abc"), 0);
    assert_eq!(scan_to_terminator(b"abc\0"), 3);
}

#[test]
fn scan_of_a_buffer_without_zero_byte_takes_all_of_it() {
    assert_eq!(scan_to_terminator(b""), 0);
    assert_eq!(scan_to_terminator(b"abc"), 3);
    assert_eq!(scan_to_terminator(&[0xff, 0xfe]), 2);
}

#[test]
fn valid_utf8_without_zero_byte_is_text() {
    assert_eq!(text_from_bytes(b"Hello".to_vec()), Ok(String::from("Hello")));
    assert_eq!(text_from_bytes(Vec::new()), Ok(String::new()));
    assert_eq!(
        text_from_bytes("caf\u{e9} \u{20ac} \u{1f600}".as_bytes().to_vec()),
        Ok(String::from("caf\u{e9} \u{20ac} \u{1f600}"))
    );
}

#[test]
fn bytes_that_are_no_utf8_are_no_text() {
    assert_eq!(text_from_bytes(vec![0xff, 0xfe, 0xfd]), Err(BoundaryError::Encoding));
    assert_eq!(text_from_bytes(vec![b'a', 0x80]), Err(BoundaryError::Encoding));
    assert_eq!(text_from_bytes(vec![0xc3]), Err(BoundaryError::Encoding));
    assert_eq!(text_from_bytes(vec![0xc0, 0x80]), Err(BoundaryError::Encoding));
    assert_eq!(text_from_bytes(vec![0xed, 0xa0, 0x80]), Err(BoundaryError::Encoding));
}

#[test]
fn bytes_with_a_zero_byte_are_no_text() {
    assert_eq!(text_from_bytes(b"a\0b".to_vec()), Err(BoundaryError::Encoding));
    assert_eq!(text_from_bytes(b"\0".to_vec()), Err(BoundaryError::Encoding));
    assert_eq!(text_from_bytes(b"abc\0".to_vec()), Err(BoundaryError::Encoding));
}

#[test]
fn version_is_a_terminated_string() {
    let version = get_version();
    assert_eq!(version, "1.0.0\0");
    assert_eq!(version.as_bytes(), b"1.0.0\0");
    assert_eq!(scan_to_terminator(version.as_bytes()), 5);
    assert_eq!(&version[..5], "1.0.0");
}
