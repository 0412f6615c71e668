use bytes::Bytes;
use fakepostmaster::error::{Error, Flaw};
use fakepostmaster::handler::server::{Backend, Event, Next, State};
use fakepostmaster::message::{
    ColumnData, ColumnDescription, DataRow, ParameterStatus, PgType, RawFrontendMessage,
    RawRequest, RowDescription,
};

fn request(body: &[u8]) -> Event {
    let mut bytes = ((body.len() + 4) as i32).to_be_bytes().to_vec();
    bytes.extend_from_slice(body);
    Event::Request(RawRequest::get(&mut Bytes::from(bytes)).unwrap())
}

fn message(kind: u8, body: &[u8]) -> Event {
    let mut bytes = vec![kind];
    bytes.extend_from_slice(&((body.len() + 4) as i32).to_be_bytes());
    bytes.extend_from_slice(body);
    Event::Message(RawFrontendMessage::get(&mut Bytes::from(bytes)).unwrap())
}

fn startup() -> Event {
    let mut body = vec![0x00, 0x03, 0x00, 0x00];
    body.extend_from_slice(b"user\0md5user\0database\0postgres\0\0");
    request(&body)
}

fn error_frame(text: &[u8]) -> Vec<u8> {
    let mut frame = vec![0x45];
    frame.extend_from_slice(&((text.len() + 7) as i32).to_be_bytes());
    frame.push(b'M');
    frame.extend_from_slice(text);
    frame.extend_from_slice(&[0, 0]);
    frame
}

const READY: [u8; 6] = [0x5A, 0x00, 0x00, 0x00, 0x05, 0x49];

fn awaiting_password() -> Backend {
    let mut backend = Backend::new();
    backend.step(startup());
    backend.step(Event::Salt([1, 2, 3, 4]));
    assert_eq!(backend.state(), State::AwaitPassword);
    backend
}

fn authenticated() -> Backend {
    let mut backend = awaiting_password();
    backend.step(message(b'p', b"md5b5dfd8fbdd6fc9174cc8e85dfa598fa2\0"));
    backend.step(Event::Verdict(true));
    assert_eq!(backend.state(), State::ReadyForQuery);
    backend
}

fn executing() -> Backend {
    let mut backend = authenticated();
    backend.step(message(b'Q', b"SELECT 1\0"));
    assert_eq!(backend.state(), State::Executing);
    backend
}

#[test]
fn handshake_with_accepted_password() {
    let mut backend = Backend::new();
    assert_eq!(backend.state(), State::Startup);
    assert!(backend.parameters().is_empty());

    let reply = backend.step(startup());
    assert_eq!(reply.output.len(), 0);
    assert!(matches!(reply.next, Next::ChooseSalt));
    assert_eq!(reply.error, None);
    assert_eq!(backend.state(), State::AwaitAuth);

    let reply = backend.step(Event::Salt([1, 2, 3, 4]));
    assert_eq!(
        reply.output.to_vec(),
        vec![0x52, 0x00, 0x00, 0x00, 0x0C, 0x00, 0x00, 0x00, 0x05, 1, 2, 3, 4]
    );
    assert!(matches!(reply.next, Next::Receive));
    assert_eq!(reply.error, None);
    assert_eq!(backend.state(), State::AwaitPassword);
    assert_eq!(backend.salt(), [1, 2, 3, 4]);
    assert_eq!(
        backend.parameters()[..],
        [
            ParameterStatus::new(&String::from("user"), &String::from("md5user")).unwrap(),
            ParameterStatus::new(&String::from("database"), &String::from("postgres")).unwrap(),
        ]
    );

    let reply = backend.step(message(b'p', b"md5b5dfd8fbdd6fc9174cc8e85dfa598fa2\0"));
    assert_eq!(reply.output.len(), 0);
    match reply.next {
        Next::Authenticate { password } => {
            assert_eq!(password.as_bytes(), b"md5b5dfd8fbdd6fc9174cc8e85dfa598fa2")
        }
        other => panic!("unexpected: {:?}", other),
    }
    assert_eq!(reply.error, None);
    assert_eq!(backend.state(), State::Authenticating);

    let reply = backend.step(Event::Verdict(true));
    let mut expected = vec![0x52, 0x00, 0x00, 0x00, 0x08, 0x00, 0x00, 0x00, 0x00];
    expected.extend_from_slice(&[0x53, 0x00, 0x00, 0x00, 0x28]);
    expected.extend_from_slice(b"server_version\x000.1 (fakepostmaster)\0");
    expected.extend_from_slice(&READY);
    assert_eq!(reply.output.to_vec(), expected);
    assert!(matches!(reply.next, Next::Receive));
    assert_eq!(reply.error, None);
    assert_eq!(backend.state(), State::ReadyForQuery);
}

#[test]
fn handshake_with_rejected_password() {
    let mut backend = awaiting_password();
    backend.step(message(b'p', b"wrong\0"));
    let reply = backend.step(Event::Verdict(false));
    assert_eq!(
        reply.output.to_vec(),
        error_frame(b"Incorrect password or user")
    );
    assert!(matches!(reply.next, Next::Close));
    assert_eq!(reply.error, Some(Error::AuthFailed));
    assert_eq!(backend.state(), State::Closed);
}

#[test]
fn simple_query_with_rows() {
    let mut backend = authenticated();
    let reply = backend.step(message(b'Q', b"SELECT 1 as a;\0"));
    assert_eq!(reply.output.len(), 0);
    match reply.next {
        Next::Execute { query } => assert_eq!(query.as_bytes(), b"SELECT 1 as a;"),
        other => panic!("unexpected: {:?}", other),
    }
    assert_eq!(backend.state(), State::Executing);

    let reply = backend.step(Event::Executed {
        description: RowDescription::new(vec![ColumnDescription::new(
            &String::from("a"),
            PgType::Int4,
        )
        .unwrap()]),
        rows: vec![
            DataRow::new(vec![ColumnData::from(vec![b'1'])]),
            DataRow::new(vec![ColumnData::null()]),
        ],
        command_tag: String::from("SELECT 2"),
    });
    let mut expected = vec![
        0x54, 0x00, 0x00, 0x00, 0x1A, 0x00, 0x01, b'a', 0x00, 0x00, 0x00, 0x00, 0x00, 0x00, 0x00,
        0x00, 0x00, 0x00, 0x17, 0x00, 0x04, 0xFF, 0xFF, 0xFF, 0xFF, 0x00, 0x00,
    ];
    expected.extend_from_slice(&[
        0x44, 0x00, 0x00, 0x00, 0x0B, 0x00, 0x01, 0x00, 0x00, 0x00, 0x01, b'1',
    ]);
    expected.extend_from_slice(&[
        0x44, 0x00, 0x00, 0x00, 0x0A, 0x00, 0x01, 0xFF, 0xFF, 0xFF, 0xFF,
    ]);
    expected.extend_from_slice(&[0x43, 0x00, 0x00, 0x00, 0x0D]);
    expected.extend_from_slice(b"SELECT 2\0");
    expected.extend_from_slice(&READY);
    assert_eq!(reply.output.to_vec(), expected);
    assert!(matches!(reply.next, Next::Receive));
    assert_eq!(reply.error, None);
    assert_eq!(backend.state(), State::ReadyForQuery);
}

fn kinds_of(mut stream: Bytes) -> Vec<u8> {
    let mut kinds = Vec::new();
    while stream.len() > 0 {
        let frame = fakepostmaster::message::RawBackendMessage::get(&mut stream).unwrap();
        kinds.push(frame.header.message_type);
    }
    kinds
}

#[test]
fn simple_query_reply_order() {
    for n in [0usize, 1, 2, 5] {
        let mut backend = executing();
        let mut rows = Vec::new();
        for i in 0..n {
            rows.push(DataRow::new(vec![ColumnData::from(vec![i as u8])]));
        }
        let reply = backend.step(Event::Executed {
            description: RowDescription::new(vec![ColumnDescription::new(
                &String::from("Custom Field"),
                PgType::Text,
            )
            .unwrap()]),
            rows,
            command_tag: String::from("SELECT 0"),
        });
        let mut expected = vec![b'T'];
        expected.extend(std::iter::repeat(b'D').take(n));
        expected.extend_from_slice(b"CZ");
        assert_eq!(kinds_of(Bytes::from(reply.output.to_vec())), expected);
        assert_eq!(backend.state(), State::ReadyForQuery);
    }
}

#[test]
fn simple_query_without_columns_or_rows() {
    let mut backend = executing();
    let reply = backend.step(Event::Executed {
        description: RowDescription::new(vec![]),
        rows: vec![],
        command_tag: String::from("SELECT 0"),
    });
    let mut expected = vec![0x54, 0x00, 0x00, 0x00, 0x06, 0x00, 0x00];
    expected.extend_from_slice(&[0x43, 0x00, 0x00, 0x00, 0x0D]);
    expected.extend_from_slice(b"SELECT 0\0");
    expected.extend_from_slice(&READY);
    assert_eq!(reply.output.to_vec(), expected);
    assert_eq!(backend.state(), State::ReadyForQuery);
}

#[test]
fn executor_failure_is_reported_and_the_backend_is_ready_again() {
    let mut backend = executing();
    let reply = backend.step(Event::ExecutorFailed);
    let mut expected = error_frame(b"Query failed");
    expected.extend_from_slice(&READY);
    assert_eq!(reply.output.to_vec(), expected);
    assert!(matches!(reply.next, Next::Receive));
    assert_eq!(reply.error, None);
    assert_eq!(backend.state(), State::ReadyForQuery);
    // the connection can be used again
    let reply = backend.step(message(b'Q', b"SELECT 1\0"));
    assert!(matches!(reply.next, Next::Execute { .. }));
}

#[test]
fn result_with_a_zero_byte_in_its_tag_is_reported_as_a_failure() {
    let mut backend = executing();
    let reply = backend.step(Event::Executed {
        description: RowDescription::new(vec![]),
        rows: vec![],
        command_tag: String::from("SELECT\0"),
    });
    let mut expected = error_frame(b"Query failed");
    expected.extend_from_slice(&READY);
    assert_eq!(reply.output.to_vec(), expected);
    assert_eq!(reply.error, Some(Error::Malformed(Flaw::InteriorNul)));
    assert_eq!(backend.state(), State::ReadyForQuery);
}

#[test]
fn terminate_closes_the_connection() {
    let mut backend = authenticated();
    let reply = backend.step(message(b'X', b""));
    assert_eq!(reply.output.len(), 0);
    assert!(matches!(reply.next, Next::Close));
    assert_eq!(reply.error, None);
    assert_eq!(backend.state(), State::Closed);

    let mut backend = awaiting_password();
    let reply = backend.step(message(b'X', b""));
    assert!(matches!(reply.next, Next::Close));
    assert_eq!(reply.error, None);
    assert_eq!(backend.state(), State::Closed);

    // a closed connection stays closed
    let reply = backend.step(Event::Verdict(true));
    assert_eq!(reply.output.len(), 0);
    assert!(matches!(reply.next, Next::Close));
    assert_eq!(reply.error, None);
    assert_eq!(backend.state(), State::Closed);
}

#[test]
fn protocol_violations_close_the_connection() {
    // a query where a password is awaited
    let mut backend = awaiting_password();
    let reply = backend.step(message(b'Q', b"SELECT 1\0"));
    assert_eq!(reply.output.to_vec(), error_frame(b"Protocol violation"));
    assert!(matches!(reply.next, Next::Close));
    assert_eq!(reply.error, Some(Error::UnexpectedMessage));
    assert_eq!(backend.state(), State::Closed);

    // a password where a query is awaited
    let mut backend = authenticated();
    let reply = backend.step(message(b'p', b"x\0"));
    assert_eq!(reply.output.to_vec(), error_frame(b"Protocol violation"));
    assert_eq!(reply.error, Some(Error::UnexpectedMessage));
    assert_eq!(backend.state(), State::Closed);

    // a query without its terminator
    let mut backend = authenticated();
    let reply = backend.step(message(b'Q', b"SELECT 1"));
    assert_eq!(reply.output.to_vec(), error_frame(b"Protocol violation"));
    assert_eq!(reply.error, Some(Error::Malformed(Flaw::TruncatedBody)));
    assert_eq!(backend.state(), State::Closed);

    // a request that is no startup message
    let mut backend = Backend::new();
    let reply = backend.step(request(&i32::to_be_bytes(80877103)));
    assert_eq!(reply.output.to_vec(), error_frame(b"Protocol violation"));
    assert_eq!(reply.error, Some(Error::UnexpectedMessage));
    assert_eq!(backend.state(), State::Closed);

    // a startup message whose parameters do not end in a terminator
    let mut backend = Backend::new();
    let reply = backend.step(request(&[0, 3, 0, 0, b'a', 0, b'b', 0]));
    assert_eq!(
        reply.error,
        Some(Error::Malformed(Flaw::MissingTerminator))
    );
    assert_eq!(backend.state(), State::Closed);
}

#[test]
fn events_out_of_turn_close_the_connection() {
    let mut backend = Backend::new();
    let reply = backend.step(Event::Verdict(true));
    assert_eq!(reply.output.len(), 0);
    assert!(matches!(reply.next, Next::Close));
    assert_eq!(reply.error, Some(Error::UnexpectedMessage));
    assert_eq!(backend.state(), State::Closed);

    let mut backend = Backend::new();
    let reply = backend.step(message(b'Q', b"SELECT 1\0"));
    assert_eq!(reply.error, Some(Error::UnexpectedMessage));
    assert_eq!(backend.state(), State::Closed);

    let mut backend = authenticated();
    let reply = backend.step(Event::ExecutorFailed);
    assert_eq!(reply.error, Some(Error::UnexpectedMessage));
    assert_eq!(backend.state(), State::Closed);

    let mut backend = Backend::new();
    let reply = backend.step(Event::Salt([1, 2, 3, 4]));
    assert_eq!(reply.error, Some(Error::UnexpectedMessage));
    assert_eq!(backend.state(), State::Closed);

    let mut backend = Backend::new();
    backend.step(startup());
    let reply = backend.step(message(b'p', b"x\0"));
    assert_eq!(reply.output.len(), 0);
    assert_eq!(reply.error, Some(Error::UnexpectedMessage));
    assert_eq!(backend.state(), State::Closed);

    let mut backend = executing();
    let reply = backend.step(message(b'Q', b"SELECT 1\0"));
    assert_eq!(reply.output.len(), 0);
    assert_eq!(reply.error, Some(Error::UnexpectedMessage));
    assert_eq!(backend.state(), State::Closed);
}

#[test]
fn startup_message_must_name_the_user() {
    let mut backend = Backend::new();
    let reply = backend.step(request(&[0, 3, 0, 0, 0]));
    assert_eq!(reply.output.to_vec(), error_frame(b"Protocol violation"));
    assert!(matches!(reply.next, Next::Close));
    assert_eq!(reply.error, Some(Error::Malformed(Flaw::MissingUser)));
    assert_eq!(backend.state(), State::Closed);

    let mut body = vec![0x00, 0x03, 0x00, 0x00];
    body.extend_from_slice(b"database\0postgres\0users\0x\0\0");
    let mut backend = Backend::new();
    let reply = backend.step(request(&body));
    assert_eq!(reply.error, Some(Error::Malformed(Flaw::MissingUser)));

    let mut body = vec![0x00, 0x03, 0x00, 0x00];
    body.extend_from_slice(b"database\0postgres\0user\0x\0\0");
    let mut backend = Backend::new();
    let reply = backend.step(request(&body));
    assert_eq!(reply.error, None);
    assert_eq!(backend.state(), State::AwaitAuth);
}
