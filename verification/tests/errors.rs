use kilo_rs::error::Error;

#[test]
fn io_error_message() {
    let cause = std::io::Error::new(std::io::ErrorKind::Other, "no terminal");
    let text = format!("Input/output error: {}", cause);
    assert_eq!(Error::IoError(cause).message(), text);
    assert_eq!(text, "Input/output error: no terminal");
}

#[test]
fn escape_sequence_message() {
    let error = Error::EscSeqParseError(String::from("[9~"));
    assert_eq!(error.message(), "Error parsing escape sequence: [9~");
    let error = Error::EscSeqParseError(String::new());
    assert_eq!(error.message(), "Error parsing escape sequence: ");
}

#[test]
fn utf8_message_lists_the_bytes() {
    let error = Error::Utf8ParseError(vec![1, 250, 0]);
    assert_eq!(error.message(), "Byte sequence is not UTF-8: [1, 250, 0]");
    let error = Error::Utf8ParseError(vec![]);
    assert_eq!(error.message(), "Byte sequence is not UTF-8: []");
    let error = Error::Utf8ParseError(vec![255]);
    assert_eq!(error.message(), "Byte sequence is not UTF-8: [255]");
    let bytes: Vec<u8> = (0..=255).collect();
    let text = format!("Byte sequence is not UTF-8: {:?}", bytes);
    assert_eq!(Error::Utf8ParseError(bytes).message(), text);
}

#[test]
fn bad_key_message() {
    assert_eq!(Error::BadKeyError(17).message(), "Unexpected or invalid key: 17");
    assert_eq!(Error::BadKeyError(0).message(), "Unexpected or invalid key: 0");
    assert_eq!(Error::BadKeyError(255).message(), "Unexpected or invalid key: 255");
    for key in 0..=255u8 {
        assert_eq!(
            Error::BadKeyError(key).message(),
            format!("Unexpected or invalid key: {}", key)
        );
    }
}

#[test]
fn from_io_error() {
    let cause = std::io::Error::new(std::io::ErrorKind::UnexpectedEof, "gone");
    match Error::from(cause) {
        Error::IoError(inner) => {
            assert_eq!(inner.kind(), std::io::ErrorKind::UnexpectedEof);
            assert_eq!(format!("{}", inner), "gone");
        }
        other => panic!("{:?}", other),
    }
}

#[test]
fn from_utf8_error_keeps_the_bytes() {
    let cause = String::from_utf8(vec![b'a', 0xff, b'b']).unwrap_err();
    match Error::from(cause) {
        Error::Utf8ParseError(bytes) => assert_eq!(bytes, vec![b'a', 0xff, b'b']),
        other => panic!("{:?}", other),
    }
    let cause = String::from_utf8(vec![0xc3]).unwrap_err();
    assert_eq!(Error::from(cause).message(), "Byte sequence is not UTF-8: [195]");
}

/// A read that fails, with the failure turned into the library's error on
/// the way out.
fn failing_read() -> Result<u8, Error> {
    let failed: Result<u8, std::io::Error> =
        Err(std::io::Error::new(std::io::ErrorKind::Other, "x"));
    Ok(failed?)
}

#[test]
fn question_mark_converts() {
    assert!(matches!(failing_read(), Err(Error::IoError(_))));
}
