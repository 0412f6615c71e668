use bytes::Bytes;
use fakepostmaster::error::{Error, Flaw};
use fakepostmaster::frontend::FrontendMessage;

fn startup_bytes() -> Vec<u8> {
    let mut body = vec![0x00, 0x03, 0x00, 0x00];
    body.extend_from_slice(b"user\0md5user\0database\0postgres\0\0");
    let mut frame = ((body.len() + 4) as i32).to_be_bytes().to_vec();
    frame.extend_from_slice(&body);
    frame
}

#[test]
fn parse_startup_message_reads_version_and_parameters() {
    let mut buffer = Bytes::from(startup_bytes());
    match FrontendMessage::parse_startup_message(&mut buffer).unwrap() {
        FrontendMessage::StartupMessage {
            length,
            protocol_version,
            parameters,
        } => {
            assert_eq!(length, 40);
            assert_eq!(protocol_version, (3, 0));
            assert_eq!(
                parameters,
                vec![
                    (String::from("user"), String::from("md5user")),
                    (String::from("database"), String::from("postgres")),
                ]
            );
        }
        other => panic!("unexpected message: {:?}", other),
    }
    assert_eq!(buffer.len(), 0);
}

#[test]
fn parse_startup_message_stops_at_an_empty_name() {
    let mut body = vec![0x00, 0x03, 0x00, 0x00];
    body.extend_from_slice(b"user\0u\0\0rest");
    let mut frame = ((body.len() + 4) as i32).to_be_bytes().to_vec();
    frame.extend_from_slice(&body);
    frame.extend_from_slice(&[9, 9]);
    let mut buffer = Bytes::from(frame);
    match FrontendMessage::parse_startup_message(&mut buffer).unwrap() {
        FrontendMessage::StartupMessage { parameters, .. } => {
            assert_eq!(parameters, vec![(String::from("user"), String::from("u"))]);
        }
        other => panic!("unexpected message: {:?}", other),
    }
    assert_eq!(buffer.to_vec(), vec![9, 9]);
}

#[test]
fn parse_startup_message_without_parameters() {
    let mut buffer = Bytes::from(vec![0, 0, 0, 8, 0, 3, 0, 0]);
    match FrontendMessage::parse_startup_message(&mut buffer).unwrap() {
        FrontendMessage::StartupMessage {
            length,
            protocol_version,
            parameters,
        } => {
            assert_eq!(length, 8);
            assert_eq!(protocol_version, (3, 0));
            assert!(parameters.is_empty());
        }
        other => panic!("unexpected message: {:?}", other),
    }
}

#[test]
fn parse_startup_message_failures() {
    let mut buffer = Bytes::from(vec![0, 0, 0]);
    assert_eq!(
        FrontendMessage::parse_startup_message(&mut buffer).unwrap_err(),
        Error::BufferUnderflow
    );
    let mut buffer = Bytes::from(vec![0, 0, 0, 3, 1, 2]);
    assert_eq!(
        FrontendMessage::parse_startup_message(&mut buffer).unwrap_err(),
        Error::Malformed(Flaw::LengthTooSmall)
    );
    let mut buffer = Bytes::from(vec![0, 0, 0, 9, 0, 3, 0, 0]);
    assert_eq!(
        FrontendMessage::parse_startup_message(&mut buffer).unwrap_err(),
        Error::BufferUnderflow
    );
    // a name without a value
    let mut buffer = Bytes::from(vec![0, 0, 0, 11, 0, 3, 0, 0, b'a', 0, b'b']);
    assert_eq!(
        FrontendMessage::parse_startup_message(&mut buffer).unwrap_err(),
        Error::BufferUnderflow
    );
    assert_eq!(buffer.len(), 0);
}

#[test]
fn parse_password_message_reads_the_password() {
    let mut buffer = Bytes::from(vec![b'p', 0, 0, 0, 8, b'a', b'b', b'c', 0, 7]);
    match FrontendMessage::parse_password_message(&mut buffer).unwrap() {
        FrontendMessage::PasswordMessage {
            kind,
            length,
            password,
        } => {
            assert_eq!(kind, 'p');
            assert_eq!(length, 8);
            assert_eq!(password, "abc");
        }
        other => panic!("unexpected message: {:?}", other),
    }
    assert_eq!(buffer.to_vec(), vec![7]);
}

#[test]
fn parse_password_message_refuses_another_kind() {
    let mut buffer = Bytes::from(vec![b'Q', 0, 0, 0, 8, b'a', b'b', b'c', 0]);
    assert_eq!(
        FrontendMessage::parse_password_message(&mut buffer).unwrap_err(),
        Error::UnexpectedMessage
    );
    assert_eq!(buffer.len(), 8);
}

#[test]
fn parse_query_reads_the_query() {
    let mut frame = vec![b'Q', 0, 0, 0, 13];
    frame.extend_from_slice(b"SELECT 1\0");
    let mut buffer = Bytes::from(frame);
    match FrontendMessage::parse_query(&mut buffer).unwrap() {
        FrontendMessage::Query {
            kind,
            length,
            query,
        } => {
            assert_eq!(kind, 'Q');
            assert_eq!(length, 13);
            assert_eq!(query, "SELECT 1");
        }
        other => panic!("unexpected message: {:?}", other),
    }
}

#[test]
fn parse_query_failures() {
    let mut buffer = Bytes::from(Vec::<u8>::new());
    assert_eq!(
        FrontendMessage::parse_query(&mut buffer).unwrap_err(),
        Error::BufferUnderflow
    );
    let mut buffer = Bytes::from(vec![b'p', 0, 0, 0, 5, 0]);
    assert_eq!(
        FrontendMessage::parse_query(&mut buffer).unwrap_err(),
        Error::UnexpectedMessage
    );
    let mut buffer = Bytes::from(vec![b'Q', 0, 0, 0, 3]);
    assert_eq!(
        FrontendMessage::parse_query(&mut buffer).unwrap_err(),
        Error::Malformed(Flaw::LengthTooSmall)
    );
    let mut buffer = Bytes::from(vec![b'Q', 0, 0, 0, 6, b'a']);
    assert_eq!(
        FrontendMessage::parse_query(&mut buffer).unwrap_err(),
        Error::BufferUnderflow
    );
    // a text without its terminator
    let mut buffer = Bytes::from(vec![b'Q', 0, 0, 0, 6, b'a', b'b']);
    assert_eq!(
        FrontendMessage::parse_query(&mut buffer).unwrap_err(),
        Error::BufferUnderflow
    );
    // a byte above 127 becomes the character with that number
    let mut buffer = Bytes::from(vec![b'Q', 0, 0, 0, 6, 0xe9, 0]);
    match FrontendMessage::parse_query(&mut buffer).unwrap() {
        FrontendMessage::Query { query, .. } => assert_eq!(query, "\u{e9}"),
        other => panic!("unexpected message: {:?}", other),
    }
}
