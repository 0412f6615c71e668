use bytes::{Bytes, BytesMut};
use fakepostmaster::error::{Error, Flaw};
use fakepostmaster::handler::{put_message, put_request};
use fakepostmaster::libpq_types::{Byte, CString, Vec16, Vec32, VecNull};
use fakepostmaster::message::{
    AuthenticationMD5Password, AuthenticationOk, BackendKeyData, ColumnData, ColumnDescription,
    CommandComplete, DataRow, ErrorMessage, ErrorResponse, MessageBody, MessageHeader,
    ParameterStatus, PasswordMessage, PgType, ProtocolVersion, Query, ReadyForQuery,
    RowDescription, StartupMessage, TransactionIndicator,
};
use fakepostmaster::wire::{ByteSized, Deserialize, Serialize};

fn frame_of<T: MessageBody + Serialize + ByteSized>(message: &T) -> Vec<u8> {
    let mut buffer = BytesMut::new();
    put_message(&mut buffer, message).unwrap();
    buffer.to_vec()
}

#[test]
fn authentication_ok_frame() {
    assert_eq!(
        frame_of(&AuthenticationOk::new()),
        vec![0x52, 0x00, 0x00, 0x00, 0x08, 0x00, 0x00, 0x00, 0x00]
    );
}

#[test]
fn ready_for_query_idle_frame() {
    assert_eq!(
        frame_of(&ReadyForQuery::new(TransactionIndicator::Idle)),
        vec![0x5A, 0x00, 0x00, 0x00, 0x05, 0x49]
    );
    assert_eq!(
        frame_of(&ReadyForQuery::new(TransactionIndicator::IdleInTransaction)),
        vec![0x5A, 0x00, 0x00, 0x00, 0x05, 0x54]
    );
    assert_eq!(
        frame_of(&ReadyForQuery::new(
            TransactionIndicator::IdleInTransactionAborted
        )),
        vec![0x5A, 0x00, 0x00, 0x00, 0x05, 0x45]
    );
}

#[test]
fn command_complete_frame() {
    assert_eq!(
        frame_of(&CommandComplete::new(String::from("SELECT 1")).unwrap()),
        vec![0x43, 0x00, 0x00, 0x00, 0x0D, 0x53, 0x45, 0x4C, 0x45, 0x43, 0x54, 0x20, 0x31, 0x00]
    );
}

#[test]
fn parameter_status_frame() {
    let frame = frame_of(
        &ParameterStatus::new(
            &String::from("server_version"),
            &String::from("14.17 (Debian 14.17-1 pgdg120+1)"),
        )
        .unwrap(),
    );
    assert_eq!(frame.len(), 53);
    assert_eq!(
        &frame[..12],
        &[0x53, 0x00, 0x00, 0x00, 0x34, 0x73, 0x65, 0x72, 0x76, 0x65, 0x72, 0x5F]
    );
    let mut expected = vec![0x53, 0x00, 0x00, 0x00, 0x34];
    expected.extend_from_slice(b"server_version\0");
    expected.extend_from_slice(b"14.17 (Debian 14.17-1 pgdg120+1)\0");
    assert_eq!(frame, expected);
}

#[test]
fn row_description_frame() {
    let column = ColumnDescription {
        name: CString::new("set_config").unwrap(),
        relation_id: 0,
        attribute_id: 1,
        datatype_id: 25,
        datatype_len: -1,
        datatype_mod: -1,
        format: 0x99,
    };
    assert_eq!(
        frame_of(&RowDescription::new(vec![column])),
        vec![
            0x54, 0x00, 0x00, 0x00, 0x23, 0x00, 0x01, 0x73, 0x65, 0x74, 0x5F, 0x63, 0x6F, 0x6E,
            0x66, 0x69, 0x67, 0x00, 0x00, 0x00, 0x00, 0x00, 0x00, 0x01, 0x00, 0x00, 0x00, 0x19,
            0xFF, 0xFF, 0xFF, 0xFF, 0xFF, 0xFF, 0x00, 0x99
        ]
    );
}

#[test]
fn row_description_without_columns_frame() {
    assert_eq!(
        frame_of(&RowDescription::new(vec![])),
        vec![0x54, 0x00, 0x00, 0x00, 0x06, 0x00, 0x00]
    );
}

#[test]
fn md5_password_message() {
    let message = PasswordMessage::new_from_user_password(
        &String::from("md5user"),
        &String::from("md5pass"),
        &[0x01, 0x02, 0x03, 0x04],
    )
    .unwrap();
    assert_eq!(
        message.password.as_bytes(),
        b"md5b5dfd8fbdd6fc9174cc8e85dfa598fa2"
    );
    let mut buffer = BytesMut::new();
    message.serialize(&mut buffer);
    assert_eq!(
        buffer.to_vec(),
        b"md5b5dfd8fbdd6fc9174cc8e85dfa598fa2\0".to_vec()
    );
    let mut expected = vec![0x70, 0x00, 0x00, 0x00, 0x28];
    expected.extend_from_slice(b"md5b5dfd8fbdd6fc9174cc8e85dfa598fa2\0");
    assert_eq!(frame_of(&message), expected);
}

#[test]
fn md5_password_depends_on_every_part() {
    let of = |user: &str, password: &str, salt: [u8; 4]| {
        PasswordMessage::new_from_user_password(
            &String::from(user),
            &String::from(password),
            &salt,
        )
        .unwrap()
        .password
        .into_bytes()
    };
    let base = of("md5user", "md5pass", [1, 2, 3, 4]);
    assert_ne!(base, of("md5user2", "md5pass", [1, 2, 3, 4]));
    assert_ne!(base, of("md5user", "md5pass2", [1, 2, 3, 4]));
    assert_ne!(base, of("md5user", "md5pass", [1, 2, 3, 5]));
    // the password goes before the user
    assert_ne!(of("ab", "c", [0, 0, 0, 0]), of("c", "ab", [0, 0, 0, 0]));
    assert_eq!(of("bc", "a", [0, 0, 0, 0]), of("c", "ab", [0, 0, 0, 0]));
}

#[test]
fn password_from_hash_writes_lower_case_digits() {
    let hash = [
        0x00, 0x01, 0x0a, 0x0f, 0x10, 0x9a, 0xab, 0xff, 0x12, 0x34, 0x56, 0x78, 0x9a, 0xbc, 0xde,
        0xf0,
    ];
    assert_eq!(
        PasswordMessage::new_from_hash(&hash).password.as_bytes(),
        b"md500010a0f109aabff123456789abcdef0"
    );
    assert_eq!(
        fakepostmaster::password::lower_hex(&[0xde, 0xad, 0x00, 0x09]),
        b"dead0009".to_vec()
    );
    assert_eq!(fakepostmaster::password::lower_hex(&[]), Vec::<u8>::new());
}

#[test]
fn empty_arrays_are_their_prefix_alone() {
    let mut m = BytesMut::new();
    Vec16::<i32>::new().serialize(&mut m);
    assert_eq!(m.to_vec(), vec![0x00, 0x00]);
    let mut m = BytesMut::new();
    Vec32::<i32>::new().serialize(&mut m);
    assert_eq!(m.to_vec(), vec![0x00, 0x00, 0x00, 0x00]);
    let mut m = BytesMut::new();
    VecNull::<i32>::new().serialize(&mut m);
    assert_eq!(m.to_vec(), vec![0x00]);
}

#[test]
fn data_row_with_a_null_column() {
    let row = DataRow::new(vec![ColumnData::null()]);
    assert_eq!(row.byte_size(), 6);
    assert_eq!(
        frame_of(&row),
        vec![0x44, 0x00, 0x00, 0x00, 0x0A, 0x00, 0x01, 0xFF, 0xFF, 0xFF, 0xFF]
    );
    let mut buffer = Bytes::from(vec![0x00, 0x01, 0xFF, 0xFF, 0xFF, 0xFF]);
    let back = DataRow::deserialize(&mut buffer).unwrap();
    assert_eq!(back, row);
    assert!(back.columns.as_ref()[0].is_null());
    assert_eq!(buffer.len(), 0);
}

#[test]
fn data_row_tells_null_from_empty() {
    let row = DataRow::new(vec![
        ColumnData::new(),
        ColumnData::null(),
        ColumnData::from(vec![0x31]),
    ]);
    let mut buffer = BytesMut::new();
    row.serialize(&mut buffer);
    assert_eq!(
        buffer.to_vec(),
        vec![
            0x00, 0x03, 0x00, 0x00, 0x00, 0x00, 0xFF, 0xFF, 0xFF, 0xFF, 0x00, 0x00, 0x00, 0x01,
            0x31
        ]
    );
    let mut bytes = Bytes::from(buffer.to_vec());
    let back = DataRow::deserialize(&mut bytes).unwrap();
    assert_eq!(back, row);
    assert!(!back.columns.as_ref()[0].is_null());
    assert!(back.columns.as_ref()[1].is_null());
    assert!(!ColumnData::new().is_null());
    assert_ne!(ColumnData::new(), ColumnData::null());
}

#[test]
fn negative_counts_other_than_null_read_as_empty() {
    let mut buffer = Bytes::from(vec![0xFF, 0xFF, 0xFF, 0xFE, 0x07]);
    assert_eq!(
        ColumnData::deserialize(&mut buffer).unwrap(),
        ColumnData::new()
    );
    assert_eq!(buffer.to_vec(), vec![0x07]);
    let mut buffer = Bytes::from(vec![0xFF, 0xFF, 0x07]);
    assert_eq!(
        Vec16::<Byte>::deserialize(&mut buffer).unwrap(),
        Vec16::<Byte>::new()
    );
    assert_eq!(buffer.to_vec(), vec![0x07]);
    let mut buffer = Bytes::from(vec![0x80, 0x00, 0x00, 0x00, 0x07]);
    assert_eq!(
        Vec32::<Byte>::deserialize(&mut buffer).unwrap(),
        Vec32::<Byte>::new()
    );
    assert_eq!(buffer.to_vec(), vec![0x07]);
}

#[test]
fn error_response_frame_and_back() {
    let response = ErrorResponse::new(vec![
        ErrorMessage::new('S', &String::from("ERROR")).unwrap(),
        ErrorMessage::new('M', &String::from("Incorrect password or user")).unwrap(),
    ]);
    let mut expected = vec![0x45, 0x00, 0x00, 0x00, 0x28];
    expected.extend_from_slice(b"SERROR\0MIncorrect password or user\0\0");
    assert_eq!(frame_of(&response), expected);
    let mut body = Bytes::from(expected[5..].to_vec());
    assert_eq!(ErrorResponse::deserialize(&mut body).unwrap(), response);
}

#[test]
fn authentication_md5_password_frame_and_back() {
    let message = AuthenticationMD5Password::new([9, 8, 7, 6]);
    assert_eq!(message.code, 5);
    assert_eq!(
        frame_of(&message),
        vec![0x52, 0x00, 0x00, 0x00, 0x0C, 0x00, 0x00, 0x00, 0x05, 9, 8, 7, 6]
    );
    let mut body = Bytes::from(vec![0x00, 0x00, 0x00, 0x05, 9, 8, 7, 6, 1]);
    assert_eq!(
        AuthenticationMD5Password::deserialize(&mut body).unwrap(),
        message
    );
    assert_eq!(body.to_vec(), vec![1]);
    let mut short = Bytes::from(vec![0x00, 0x00, 0x00, 0x05, 9, 8, 7]);
    assert_eq!(
        AuthenticationMD5Password::deserialize(&mut short).unwrap_err(),
        Error::BufferUnderflow
    );
    // the code was used up, the salt was not
    assert_eq!(short.to_vec(), vec![9, 8, 7]);
}

#[test]
fn backend_key_data_frame_and_back() {
    let message = BackendKeyData::new(0x01020304, -2);
    assert_eq!(
        frame_of(&message),
        vec![0x4B, 0x00, 0x00, 0x00, 0x0C, 1, 2, 3, 4, 0xFF, 0xFF, 0xFF, 0xFE]
    );
    let mut body = Bytes::from(vec![1, 2, 3, 4, 0xFF, 0xFF, 0xFF, 0xFE]);
    assert_eq!(BackendKeyData::deserialize(&mut body).unwrap(), message);
}

#[test]
fn query_frame() {
    let mut expected = vec![0x51, 0x00, 0x00, 0x00, 0x0D];
    expected.extend_from_slice(b"SELECT 1\0");
    assert_eq!(
        frame_of(&Query::new(String::from("SELECT 1")).unwrap()),
        expected
    );
}

#[test]
fn startup_message_request_and_back() {
    let message = StartupMessage::new(
        ProtocolVersion { major: 3, minor: 0 },
        vec![
            ParameterStatus::new(&String::from("user"), &String::from("md5user")).unwrap(),
            ParameterStatus::new(&String::from("database"), &String::from("postgres")).unwrap(),
        ],
    );
    let mut buffer = BytesMut::new();
    put_request(&mut buffer, &message).unwrap();
    let mut expected = vec![0x00, 0x00, 0x00, 0x28, 0x00, 0x03, 0x00, 0x00];
    expected.extend_from_slice(b"user\0md5user\0database\0postgres\0\0");
    assert_eq!(buffer.to_vec(), expected);
    let mut body = Bytes::from(expected[4..].to_vec());
    assert_eq!(StartupMessage::deserialize(&mut body).unwrap(), message);
    assert_eq!(message.byte_size(), 36);
}

#[test]
fn constructors_refuse_a_zero_byte() {
    let nul = Error::Malformed(Flaw::InteriorNul);
    assert_eq!(CString::new("a\0b").unwrap_err(), nul);
    assert_eq!(CString::from_bytes(&[1, 0]).unwrap_err(), nul);
    assert_eq!(
        CommandComplete::new(String::from("\0")).unwrap_err(),
        nul
    );
    assert_eq!(Query::new(String::from("a\0")).unwrap_err(), nul);
    assert_eq!(
        PasswordMessage::new(&String::from("\0a")).unwrap_err(),
        nul
    );
    assert_eq!(
        ErrorMessage::new('M', &String::from("\0")).unwrap_err(),
        nul
    );
    assert_eq!(
        ParameterStatus::new(&String::from("a\0"), &String::from("b")).unwrap_err(),
        nul
    );
    assert_eq!(
        ParameterStatus::new(&String::from("a"), &String::from("b\0")).unwrap_err(),
        nul
    );
    assert_eq!(
        ColumnDescription::new(&String::from("\0"), PgType::Text).unwrap_err(),
        nul
    );
    assert_eq!(
        PasswordMessage::new(&String::from("secret"))
            .unwrap()
            .password
            .as_bytes(),
        b"secret"
    );
}

#[test]
fn pg_type_registry() {
    let rows = [
        (PgType::Bool, 16, 1, -1, 0),
        (PgType::Int4, 23, 4, -1, 0),
        (PgType::Text, 25, -1, -1, 1),
        (PgType::Oid, 26, 4, -1, 0),
    ];
    for (pgtype, oid, typlen, typmod, format) in rows {
        assert_eq!(i32::from(&pgtype), oid);
        assert_eq!(pgtype.typlen(), typlen);
        assert_eq!(pgtype.typmod(), typmod);
        assert_eq!(pgtype.format(), format);
        let column = ColumnDescription::new(&String::from("c"), pgtype).unwrap();
        assert_eq!(column.name.as_bytes(), b"c");
        assert_eq!(column.relation_id, 0);
        assert_eq!(column.attribute_id, 0);
        assert_eq!(column.datatype_id, oid);
        assert_eq!(column.datatype_len, typlen);
        assert_eq!(column.datatype_mod, typmod);
        assert_eq!(column.format, format);
    }
}

#[test]
fn header_from_body() {
    let body = CommandComplete::new(String::from("SELECT 1")).unwrap();
    assert_eq!(
        MessageHeader::new_header_from_body(&body),
        MessageHeader {
            message_type: 0x43,
            length: 13
        }
    );
    let mut buffer = BytesMut::new();
    buffer.extend_from_slice(&[7]);
    MessageHeader::new_raw_header_from_body(&mut buffer, &body);
    assert_eq!(buffer.to_vec(), vec![7, 0x43, 0x00, 0x00, 0x00, 0x0D]);
    assert_eq!(body.message_type(), 0x43);
    assert_eq!(
        MessageHeader {
            message_type: 0,
            length: 4
        }
        .body_length(),
        Ok(0)
    );
    assert_eq!(
        MessageHeader {
            message_type: 0,
            length: 3
        }
        .body_length(),
        Err(Error::Malformed(Flaw::LengthTooSmall))
    );
}

#[test]
fn byte_size_is_the_length_of_what_is_written() {
    let column = ColumnDescription::new(&String::from("Custom Field"), PgType::Text).unwrap();
    let description = RowDescription::new(vec![column]);
    let mut buffer = BytesMut::new();
    description.serialize(&mut buffer);
    assert_eq!(description.byte_size() as usize, buffer.len());
    assert_eq!(description.checked_byte_size(), Some(buffer.len() as i32));

    let row = DataRow::new(vec![
        ColumnData::from(vec![1, 2, 3]),
        ColumnData::null(),
    ]);
    let mut buffer = BytesMut::new();
    row.serialize(&mut buffer);
    assert_eq!(row.byte_size() as usize, buffer.len());
}

#[test]
fn body_length_of_a_frame() {
    assert_eq!(fakepostmaster::message::body_length(4), Ok(0));
    assert_eq!(fakepostmaster::message::body_length(13), Ok(9));
    assert_eq!(
        fakepostmaster::message::body_length(i32::MAX),
        Ok(i32::MAX as usize - 4)
    );
    assert_eq!(
        fakepostmaster::message::body_length(3),
        Err(Error::Malformed(Flaw::LengthTooSmall))
    );
    assert_eq!(
        fakepostmaster::message::body_length(-1),
        Err(Error::Malformed(Flaw::LengthTooSmall))
    );
    let limit = fakepostmaster::message::MAX_BODY_LENGTH;
    assert_eq!(limit, 256 * 1024 * 1024);
    assert_eq!(
        fakepostmaster::message::body_length_within(limit as i32 + 4, limit),
        Ok(limit)
    );
    assert_eq!(
        fakepostmaster::message::body_length_within(limit as i32 + 5, limit),
        Err(Error::Malformed(Flaw::TooLarge))
    );
    assert_eq!(
        fakepostmaster::message::body_length_within(3, limit),
        Err(Error::Malformed(Flaw::LengthTooSmall))
    );
    assert_eq!(fakepostmaster::message::body_length_within(4, 0), Ok(0));
}
