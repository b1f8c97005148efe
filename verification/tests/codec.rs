use dotlottie_ffi::codec::{to_mut_i8, to_native_string, to_string, DecodeError, EncodeError};

#[test]
fn decode_null_pointer_is_rejected() {
    assert_eq!(to_string(None), Err(DecodeError::NullPointer));
}

#[test]
fn decode_plain_text() {
    assert_eq!(to_string(Some(b"hello\0")), Ok(String::from("hello")));
}

#[test]
fn decode_empty_text() {
    assert_eq!(to_string(Some(b"\0")), Ok(String::new()));
}

#[test]
fn decode_multibyte_text() {
    let text = "h\u{e9}llo \u{4e16}\u{754c} \u{1f600}";
    let mut bytes = text.as_bytes().to_vec();
    bytes.push(0);
    assert_eq!(to_string(Some(&bytes)), Ok(String::from(text)));
}

#[test]
fn decode_rejects_empty_buffer() {
    assert_eq!(to_string(Some(b"")), Err(DecodeError::InvalidEncoding));
}

#[test]
fn decode_rejects_missing_terminator() {
    assert_eq!(to_string(Some(b"hello")), Err(DecodeError::InvalidEncoding));
}

#[test]
fn decode_rejects_embedded_nul() {
    assert_eq!(to_string(Some(b"he\0llo\0")), Err(DecodeError::InvalidEncoding));
    assert_eq!(to_string(Some(b"\0\0")), Err(DecodeError::InvalidEncoding));
}

#[test]
fn decode_rejects_invalid_utf8() {
    assert_eq!(to_string(Some(&[0xff, 0x00])), Err(DecodeError::InvalidEncoding));
    assert_eq!(to_string(Some(&[0xc3, 0x00])), Err(DecodeError::InvalidEncoding));
    assert_eq!(to_string(Some(&[0xed, 0xa0, 0x80, 0x00])), Err(DecodeError::InvalidEncoding));
}

#[test]
fn encode_appends_terminator() {
    assert_eq!(to_mut_i8("abc"), Ok(vec![b'a', b'b', b'c', 0]));
    assert_eq!(to_mut_i8(""), Ok(vec![0]));
}

#[test]
fn encode_rejects_interior_nul() {
    assert_eq!(to_mut_i8("a\0b"), Err(EncodeError::InvalidEncoding));
    assert_eq!(to_mut_i8("\0"), Err(EncodeError::InvalidEncoding));
}

#[test]
fn decode_then_encode_reproduces_the_bytes() {
    let inputs: [&[u8]; 4] = [
        b"a\0",
        b"marker_1\0",
        &[0xe4, 0xb8, 0x96, 0xe7, 0x95, 0x8c, 0x00],
        &[0xf0, 0x9f, 0x98, 0x80, 0x21, 0x00],
    ];
    for bytes in inputs {
        let text = to_string(Some(bytes)).unwrap();
        assert_eq!(to_mut_i8(&text).unwrap(), bytes.to_vec());
    }
}

#[test]
fn encode_then_decode_reproduces_the_text() {
    for text in ["", "x", "playback", "\u{e9}t\u{e9}", "\u{1f3ac} take 1"] {
        let bytes = to_mut_i8(text).unwrap();
        assert_eq!(to_string(Some(&bytes)), Ok(String::from(text)));
    }
}

#[test]
fn fill_caller_buffer_exact_fit() {
    let mut buffer = [0xaau8; 4];
    assert_eq!(to_native_string("abc", &mut buffer), Ok(4));
    assert_eq!(buffer, [b'a', b'b', b'c', 0]);
}

#[test]
fn fill_caller_buffer_keeps_the_rest() {
    let mut buffer = [0xaau8; 6];
    assert_eq!(to_native_string("hi", &mut buffer), Ok(3));
    assert_eq!(buffer, [b'h', b'i', 0, 0xaa, 0xaa, 0xaa]);
}

#[test]
fn fill_caller_buffer_too_small_writes_nothing() {
    let mut buffer = [0xaau8; 3];
    assert_eq!(
        to_native_string("abc", &mut buffer),
        Err(EncodeError::BufferTooSmall { required: 4 })
    );
    assert_eq!(buffer, [0xaa, 0xaa, 0xaa]);
    let mut empty: [u8; 0] = [];
    assert_eq!(
        to_native_string("", &mut empty),
        Err(EncodeError::BufferTooSmall { required: 1 })
    );
}

#[test]
fn fill_caller_buffer_rejects_interior_nul() {
    let mut buffer = [0xaau8; 8];
    assert_eq!(to_native_string("a\0b", &mut buffer), Err(EncodeError::InvalidEncoding));
    assert_eq!(buffer, [0xaa; 8]);
}
