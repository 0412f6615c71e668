use bytes::{Bytes, BytesMut};
use fakepostmaster::error::{Error, Flaw};
use fakepostmaster::libpq_types::{Byte, CString, VecNull};
use fakepostmaster::message::{
    AuthenticationMD5Password, AuthenticationMessageKind, AuthenticationOk, BackendKeyData,
    BackendMessageKind, CommandComplete, DataRow, ErrorResponse, FrontendMessageKind,
    MessageHeader, ParameterStatus, PasswordMessage, Query, RawBackendMessage,
    RawFrontendMessage, RawRequest, ReadyForQuery, RequestMessageKind, RowDescription,
    StartupMessage,
};
use fakepostmaster::wire::{Deserialize, Serialize};

#[test]
fn backend_frame_is_pulled_off_the_stream() {
    let mut stream = Bytes::from(vec![
        0x43, 0x00, 0x00, 0x00, 0x0D, 0x53, 0x45, 0x4C, 0x45, 0x43, 0x54, 0x20, 0x31, 0x00, 0x5A,
        0x00, 0x00, 0x00, 0x05, 0x49,
    ]);
    let mut first = RawBackendMessage::get(&mut stream).unwrap();
    assert_eq!(
        first.header,
        MessageHeader {
            message_type: 0x43,
            length: 13
        }
    );
    assert_eq!(first.raw_body.to_vec(), b"SELECT 1\0".to_vec());
    assert_eq!(first.header.length as usize, 4 + first.raw_body.len());
    assert_eq!(
        first.get_message_kind(),
        Some(BackendMessageKind::CommandComplete)
    );
    assert_eq!(first.get_auth_message_kind(), None);
    assert_eq!(stream.len(), 6);
    let complete = CommandComplete::try_from(&mut first).unwrap();
    assert_eq!(complete.command_tag.as_bytes(), b"SELECT 1");
    assert_eq!(first.raw_body.len(), 0);

    let mut second = RawBackendMessage::get(&mut stream).unwrap();
    assert_eq!(
        second.get_message_kind(),
        Some(BackendMessageKind::ReadyForQuery)
    );
    assert_eq!(second.header.length as usize, 4 + second.raw_body.len());
    assert_eq!(
        ReadyForQuery::try_from(&mut second)
            .unwrap()
            .transaction_indicator,
        0x49
    );
    assert_eq!(stream.len(), 0);
    assert_eq!(
        RawBackendMessage::get(&mut stream).unwrap_err(),
        Error::BufferUnderflow
    );
}

#[test]
fn frame_failures() {
    // the header is short: the kind byte is used up, the length is not
    let mut stream = Bytes::from(vec![0x43, 0x00, 0x00]);
    assert_eq!(
        RawBackendMessage::get(&mut stream).unwrap_err(),
        Error::BufferUnderflow
    );
    assert_eq!(stream.to_vec(), vec![0x00, 0x00]);
    // the length does not count itself
    let mut stream = Bytes::from(vec![0x43, 0x00, 0x00, 0x00, 0x03, 0x01]);
    assert_eq!(
        RawBackendMessage::get(&mut stream).unwrap_err(),
        Error::Malformed(Flaw::LengthTooSmall)
    );
    assert_eq!(stream.to_vec(), vec![0x01]);
    let mut stream = Bytes::from(vec![0x43, 0xFF, 0xFF, 0xFF, 0xFF, 0x01]);
    assert_eq!(
        RawFrontendMessage::get(&mut stream).unwrap_err(),
        Error::Malformed(Flaw::LengthTooSmall)
    );
    // the body is short
    let mut stream = Bytes::from(vec![0x43, 0x00, 0x00, 0x00, 0x06, 0x01]);
    assert_eq!(
        RawFrontendMessage::get(&mut stream).unwrap_err(),
        Error::BufferUnderflow
    );
    assert_eq!(stream.to_vec(), vec![0x01]);
    // an empty body is a frame
    let mut stream = Bytes::from(vec![0x58, 0x00, 0x00, 0x00, 0x04]);
    let frame = RawFrontendMessage::get(&mut stream).unwrap();
    assert_eq!(frame.get_message_kind(), Some(FrontendMessageKind::Terminate));
    assert_eq!(frame.raw_body.len(), 0);
}

#[test]
fn frontend_frame_kinds() {
    let of = |kind: u8| {
        let mut stream = Bytes::from(vec![kind, 0x00, 0x00, 0x00, 0x04]);
        RawFrontendMessage::get(&mut stream)
            .unwrap()
            .get_message_kind()
    };
    assert_eq!(of(b'Q'), Some(FrontendMessageKind::Query));
    assert_eq!(of(b'P'), Some(FrontendMessageKind::Parse));
    assert_eq!(of(b'H'), Some(FrontendMessageKind::Flush));
    assert_eq!(of(b'F'), Some(FrontendMessageKind::FunctionCall));
    assert_eq!(of(b'p'), None);
    assert_eq!(of(b'?'), None);
}

#[test]
fn authentication_kind_is_peeked() {
    let mut stream = Bytes::from(vec![
        0x52, 0x00, 0x00, 0x00, 0x0C, 0x00, 0x00, 0x00, 0x05, 1, 2, 3, 4,
    ]);
    let mut frame = RawBackendMessage::get(&mut stream).unwrap();
    assert_eq!(
        frame.get_message_kind(),
        Some(BackendMessageKind::Authentication)
    );
    assert_eq!(
        frame.get_auth_message_kind(),
        Some(AuthenticationMessageKind::MD5Password)
    );
    // peeking uses up nothing
    assert_eq!(frame.raw_body.len(), 8);
    assert_eq!(
        AuthenticationOk::try_from(&mut frame).unwrap_err(),
        Error::UnexpectedMessage
    );
    assert_eq!(frame.raw_body.len(), 8);
    let request = AuthenticationMD5Password::try_from(&mut frame).unwrap();
    assert_eq!(request, AuthenticationMD5Password::new([1, 2, 3, 4]));
    assert_eq!(frame.raw_body.len(), 0);

    let mut stream = Bytes::from(vec![0x52, 0x00, 0x00, 0x00, 0x08, 0x00, 0x00, 0x00, 0x00]);
    let mut frame = RawBackendMessage::get(&mut stream).unwrap();
    assert_eq!(
        frame.get_auth_message_kind(),
        Some(AuthenticationMessageKind::Success)
    );
    assert_eq!(
        AuthenticationMD5Password::try_from(&mut frame).unwrap_err(),
        Error::UnexpectedMessage
    );
    assert_eq!(
        AuthenticationOk::try_from(&mut frame).unwrap(),
        AuthenticationOk::new()
    );

    // an unknown code, a body too short for a code, another kind of frame
    let mut stream = Bytes::from(vec![0x52, 0x00, 0x00, 0x00, 0x08, 0x00, 0x00, 0x00, 0x01]);
    let frame = RawBackendMessage::get(&mut stream).unwrap();
    assert_eq!(frame.get_auth_message_kind(), None);
    let mut stream = Bytes::from(vec![0x52, 0x00, 0x00, 0x00, 0x07, 0x00, 0x00, 0x00]);
    let mut frame = RawBackendMessage::get(&mut stream).unwrap();
    assert_eq!(frame.get_auth_message_kind(), None);
    assert_eq!(
        AuthenticationOk::try_from(&mut frame).unwrap_err(),
        Error::UnexpectedMessage
    );
    let mut stream = Bytes::from(vec![0x4B, 0x00, 0x00, 0x00, 0x08, 0x00, 0x00, 0x00, 0x00]);
    let frame = RawBackendMessage::get(&mut stream).unwrap();
    assert_eq!(frame.get_auth_message_kind(), None);
}

#[test]
fn typed_decoding_checks_the_kind() {
    let mut stream = Bytes::from(vec![
        0x4B, 0x00, 0x00, 0x00, 0x0C, 0, 0, 0, 1, 0, 0, 0, 2,
    ]);
    let mut frame = RawBackendMessage::get(&mut stream).unwrap();
    assert_eq!(
        ParameterStatus::try_from(&mut frame).unwrap_err(),
        Error::UnexpectedMessage
    );
    assert_eq!(
        DataRow::try_from(&mut frame).unwrap_err(),
        Error::UnexpectedMessage
    );
    assert_eq!(
        RowDescription::try_from(&mut frame).unwrap_err(),
        Error::UnexpectedMessage
    );
    assert_eq!(
        ErrorResponse::try_from(&mut frame).unwrap_err(),
        Error::UnexpectedMessage
    );
    assert_eq!(frame.raw_body.len(), 8);
    assert_eq!(
        BackendKeyData::try_from(&mut frame).unwrap(),
        BackendKeyData::new(1, 2)
    );
}

#[test]
fn typed_decoding_reports_a_short_body_as_malformed() {
    let mut stream = Bytes::from(vec![0x4B, 0x00, 0x00, 0x00, 0x0A, 0, 0, 0, 1, 0, 0]);
    let mut frame = RawBackendMessage::get(&mut stream).unwrap();
    assert_eq!(
        BackendKeyData::try_from(&mut frame).unwrap_err(),
        Error::Malformed(Flaw::TruncatedBody)
    );
    let mut stream = Bytes::from(vec![0x51, 0x00, 0x00, 0x00, 0x06, b'a', b'b']);
    let mut frame = RawFrontendMessage::get(&mut stream).unwrap();
    assert_eq!(
        Query::try_from(&mut frame).unwrap_err(),
        Error::Malformed(Flaw::TruncatedBody)
    );
    let mut stream = Bytes::from(vec![0x45, 0x00, 0x00, 0x00, 0x07, b'M', 0, 1]);
    let mut frame = RawBackendMessage::get(&mut stream).unwrap();
    assert_eq!(
        ErrorResponse::try_from(&mut frame).unwrap_err(),
        Error::Malformed(Flaw::IncorrectTerminator)
    );
}

#[test]
fn frontend_messages_from_frames() {
    let mut stream = Bytes::from(vec![0x70, 0x00, 0x00, 0x00, 0x07, b'p', b'w', 0]);
    let mut frame = RawFrontendMessage::get(&mut stream).unwrap();
    assert_eq!(frame.get_message_kind(), None);
    assert_eq!(
        Query::try_from(&mut frame).unwrap_err(),
        Error::UnexpectedMessage
    );
    assert_eq!(
        PasswordMessage::try_from(&mut frame).unwrap(),
        PasswordMessage::new(&String::from("pw")).unwrap()
    );
    let mut stream = Bytes::from(vec![0x51, 0x00, 0x00, 0x00, 0x06, b'q', 0]);
    let mut frame = RawFrontendMessage::get(&mut stream).unwrap();
    assert_eq!(
        PasswordMessage::try_from(&mut frame).unwrap_err(),
        Error::UnexpectedMessage
    );
    assert_eq!(
        Query::try_from(&mut frame).unwrap(),
        Query::new(String::from("q")).unwrap()
    );
}

fn request(body: &[u8]) -> Bytes {
    let mut bytes = ((body.len() + 4) as i32).to_be_bytes().to_vec();
    bytes.extend_from_slice(body);
    Bytes::from(bytes)
}

#[test]
fn request_is_pulled_off_the_stream() {
    let mut body = vec![0x00, 0x03, 0x00, 0x00];
    body.extend_from_slice(b"user\0md5user\0\0");
    let mut stream = request(&body);
    let mut raw = RawRequest::get(&mut stream).unwrap();
    assert_eq!(raw.request_kind, RequestMessageKind::StartupMessage);
    assert_eq!(raw.header.length, 22);
    assert_eq!(raw.header.length as usize, 4 + raw.raw_body.len());
    assert_eq!(raw.raw_body.to_vec(), body);
    assert_eq!(stream.len(), 0);
    let startup = StartupMessage::try_from(&mut raw).unwrap();
    assert_eq!(startup.protocol_version.major, 3);
    assert_eq!(startup.protocol_version.minor, 0);
    assert_eq!(
        startup.parameters.as_ref()[..],
        [ParameterStatus::new(&String::from("user"), &String::from("md5user")).unwrap()]
    );
}

#[test]
fn request_codes_are_checked() {
    for (code, kind) in [
        (80877102, RequestMessageKind::CancelRequest),
        (80877103, RequestMessageKind::SSLRequest),
        (80877104, RequestMessageKind::GSSENCRequest),
    ] {
        let mut stream = request(&i32::to_be_bytes(code));
        let mut raw = RawRequest::get(&mut stream).unwrap();
        assert_eq!(raw.request_kind, kind);
        assert_eq!(
            StartupMessage::try_from(&mut raw).unwrap_err(),
            Error::UnexpectedMessage
        );
        assert_eq!(raw.raw_body.len(), 4);
    }
    let mut stream = request(&[0x00, 0x03, 0x00, 0x01]);
    assert_eq!(
        RawRequest::get(&mut stream).unwrap_err(),
        Error::UnsupportedKind
    );
    assert_eq!(stream.len(), 0);
    let mut stream = request(&[0x00, 0x03, 0x00]);
    assert_eq!(
        RawRequest::get(&mut stream).unwrap_err(),
        Error::BufferUnderflow
    );
    let mut stream = Bytes::from(vec![0x00, 0x00, 0x00, 0x02]);
    assert_eq!(
        RawRequest::get(&mut stream).unwrap_err(),
        Error::Malformed(Flaw::LengthTooSmall)
    );
    let mut stream = Bytes::from(vec![0x00, 0x00]);
    assert_eq!(
        RawRequest::get(&mut stream).unwrap_err(),
        Error::BufferUnderflow
    );
}

#[test]
fn vecnull_terminator_failures() {
    let mut buffer = Bytes::from(vec![0x01, 0x02, 0x03]);
    assert_eq!(
        VecNull::<Byte>::deserialize(&mut buffer).unwrap_err(),
        Error::Malformed(Flaw::IncorrectTerminator)
    );
    assert_eq!(buffer.len(), 0);
    let mut buffer = Bytes::from(vec![0x07]);
    assert_eq!(
        VecNull::<i32>::deserialize(&mut buffer).unwrap_err(),
        Error::Malformed(Flaw::IncorrectTerminator)
    );
    let mut buffer = Bytes::from(Vec::<u8>::new());
    assert_eq!(
        VecNull::<Byte>::deserialize(&mut buffer).unwrap_err(),
        Error::Malformed(Flaw::MissingTerminator)
    );
    // the last element takes the last byte: nothing is left for a terminator
    let mut buffer = Bytes::from(vec![0, 0, 0, 1, 0, 0, 0, 2]);
    assert_eq!(
        VecNull::<i32>::deserialize(&mut buffer).unwrap_err(),
        Error::Malformed(Flaw::MissingTerminator)
    );
    let mut buffer = Bytes::from(vec![b'a', 0, b'b', 0]);
    assert_eq!(
        VecNull::<CString>::deserialize(&mut buffer).unwrap_err(),
        Error::Malformed(Flaw::MissingTerminator)
    );
    // an element that cannot be read fails as the element does
    let mut buffer = Bytes::from(vec![0, 0, 0, 1, 0, 0]);
    assert_eq!(
        VecNull::<i32>::deserialize(&mut buffer).unwrap_err(),
        Error::BufferUnderflow
    );
    assert_eq!(buffer.to_vec(), vec![0, 0]);
    let mut buffer = Bytes::from(vec![b'a', 0, b'b', b'c']);
    assert_eq!(
        VecNull::<CString>::deserialize(&mut buffer).unwrap_err(),
        Error::BufferUnderflow
    );
}

#[test]
fn short_buffers_underflow() {
    assert_eq!(
        i8::deserialize(&mut Bytes::new()).unwrap_err(),
        Error::BufferUnderflow
    );
    assert_eq!(
        Byte::deserialize(&mut Bytes::new()).unwrap_err(),
        Error::BufferUnderflow
    );
    let mut buffer = Bytes::from(vec![1]);
    assert_eq!(
        i16::deserialize(&mut buffer).unwrap_err(),
        Error::BufferUnderflow
    );
    assert_eq!(buffer.len(), 1);
    let mut buffer = Bytes::from(vec![1, 2, 3]);
    assert_eq!(
        i32::deserialize(&mut buffer).unwrap_err(),
        Error::BufferUnderflow
    );
    assert_eq!(buffer.len(), 3);
    assert_eq!(
        <[u8; 4]>::deserialize(&mut buffer).unwrap_err(),
        Error::BufferUnderflow
    );
    assert_eq!(buffer.len(), 3);
    let mut buffer = Bytes::from(vec![b'a', b'b']);
    assert_eq!(
        CString::deserialize(&mut buffer).unwrap_err(),
        Error::BufferUnderflow
    );
    assert_eq!(buffer.len(), 0);
}

#[test]
fn integers_in_network_order() {
    let mut m = BytesMut::new();
    (-1i8).serialize(&mut m);
    (-128i8).serialize(&mut m);
    (-2i16).serialize(&mut m);
    i16::MIN.serialize(&mut m);
    0x1234i16.serialize(&mut m);
    (-2i32).serialize(&mut m);
    i32::MIN.serialize(&mut m);
    i32::MAX.serialize(&mut m);
    0x01020304i32.serialize(&mut m);
    let expected = vec![
        0xFF, 0x80, 0xFF, 0xFE, 0x80, 0x00, 0x12, 0x34, 0xFF, 0xFF, 0xFF, 0xFE, 0x80, 0x00, 0x00,
        0x00, 0x7F, 0xFF, 0xFF, 0xFF, 0x01, 0x02, 0x03, 0x04,
    ];
    assert_eq!(m.to_vec(), expected);
    let mut b = Bytes::from(expected);
    assert_eq!(i8::deserialize(&mut b).unwrap(), -1);
    assert_eq!(i8::deserialize(&mut b).unwrap(), -128);
    assert_eq!(i16::deserialize(&mut b).unwrap(), -2);
    assert_eq!(i16::deserialize(&mut b).unwrap(), i16::MIN);
    assert_eq!(i16::deserialize(&mut b).unwrap(), 0x1234);
    assert_eq!(i32::deserialize(&mut b).unwrap(), -2);
    assert_eq!(i32::deserialize(&mut b).unwrap(), i32::MIN);
    assert_eq!(i32::deserialize(&mut b).unwrap(), i32::MAX);
    assert_eq!(i32::deserialize(&mut b).unwrap(), 0x01020304);
    assert_eq!(b.len(), 0);
}
