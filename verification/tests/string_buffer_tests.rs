use log4rs_test_utils::string_buffer::{BufferError, StringBuffer};

#[test]
fn new_buffer_is_empty() {
    let buf = StringBuffer::new();
    assert_eq!(buf.0, "");
}

#[test]
fn write_appends_valid_utf8() {
    let mut buf = StringBuffer::new();
    let r = buf.write(b"Hello, ");
    assert_eq!(r, Ok(7));
    let r = buf.write(b"world");
    assert_eq!(r, Ok(5));
    assert_eq!(buf.0, "Hello, world");
}

#[test]
fn write_decodes_multibyte_utf8() {
    let mut buf = StringBuffer::new();
    let r = buf.write(&[0xC3, 0xA9]);
    assert_eq!(r, Ok(2));
    assert_eq!(buf.0, "\u{e9}");
}

#[test]
fn write_rejects_invalid_utf8() {
    let mut buf = StringBuffer::new();
    let r = buf.write(b"ok");
    assert_eq!(r, Ok(2));
    let r = buf.write(&[0xFF, 0xFE]);
    assert_eq!(r, Err(BufferError::InvalidEncoding));
    assert_eq!(buf.0, "ok");
}

#[test]
fn write_rejects_incomplete_codepoint() {
    let mut buf = StringBuffer::new();
    let r = buf.write(&[0xC3]);
    assert_eq!(r, Err(BufferError::InvalidEncoding));
    assert_eq!(buf.0, "");
}

#[test]
fn flush_succeeds_and_keeps_contents() {
    let mut buf = StringBuffer::new();
    buf.write(b"kept").unwrap();
    assert_eq!(buf.flush(), Ok(()));
    assert_eq!(buf.0, "kept");
}
