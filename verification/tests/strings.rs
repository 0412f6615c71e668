use bytes::BytesMut;
use fakepostmaster::error::Error;
use fakepostmaster::strings::{text_from, CString};

#[test]
fn put_cstring_appends_bytes_and_terminator() {
    let mut buffer = BytesMut::new();
    buffer.put_cstring(&String::from("ab"));
    buffer.put_cstring(&String::from(""));
    buffer.put_cstring(&String::from("\u{e9}"));
    assert_eq!(buffer.to_vec(), vec![b'a', b'b', 0, 0, 0xc3, 0xa9, 0]);
}

#[test]
fn get_cstring_takes_up_to_the_terminator() {
    let mut buffer = BytesMut::from(&b"ab\0c\0"[..]);
    assert_eq!(buffer.get_cstring().unwrap(), "ab");
    assert_eq!(buffer.to_vec(), b"c\0".to_vec());
    assert_eq!(buffer.get_cstring().unwrap(), "c");
    assert_eq!(buffer.len(), 0);
    assert_eq!(buffer.get_cstring().unwrap_err(), Error::BufferUnderflow);
}

#[test]
fn get_cstring_without_terminator_takes_everything() {
    let mut buffer = BytesMut::from(&b"abc"[..]);
    assert_eq!(buffer.get_cstring().unwrap_err(), Error::BufferUnderflow);
    assert_eq!(buffer.len(), 0);
}

#[test]
fn text_from_maps_each_byte_to_a_character() {
    assert_eq!(text_from(&[0x41, 0xe9, 0x00, 0xff]), "A\u{e9}\0\u{ff}");
    assert_eq!(text_from(&[]), "");
}
