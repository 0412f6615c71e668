use bytes::{Bytes, BytesMut};
use fakepostmaster::handler::put_message;
use fakepostmaster::libpq_types::{Byte, Byte4, CString, Vec16, Vec32, VecNull};
use fakepostmaster::message::{
    AuthenticationMD5Password, AuthenticationOk, BackendKeyData, ColumnData, ColumnDescription,
    CommandComplete, DataRow, ErrorMessage, ErrorResponse, MessageBody, MessageHeader,
    ParameterStatus, PasswordMessage, PgType, ProtocolVersion, Query, RawBackendMessage,
    ReadyForQuery, RequestHeader, RowDescription, StartupMessage, TransactionIndicator,
};
use fakepostmaster::wire::{ByteSized, Deserialize, Serialize};

/// Writes `item`, checks the length of what was written against its size,
/// reads it back with `rest` behind it, and checks that `rest` is left.
fn round_trip<T>(item: T, rest: &[u8])
where
    T: Serialize + Deserialize + ByteSized + PartialEq + std::fmt::Debug,
{
    let mut buffer = BytesMut::new();
    item.serialize(&mut buffer);
    assert_eq!(item.byte_size() as usize, buffer.len());
    assert_eq!(item.checked_byte_size(), Some(buffer.len() as i32));
    buffer.extend_from_slice(rest);
    let mut bytes = Bytes::from(buffer.to_vec());
    assert_eq!(T::deserialize(&mut bytes).unwrap(), item);
    assert_eq!(bytes.to_vec(), rest.to_vec());
}

fn text(s: &str) -> CString {
    CString::new(s).unwrap()
}

#[test]
fn primitives_round_trip() {
    for rest in [&[][..], &[0][..], &[1, 2, 3][..]] {
        for v in [i8::MIN, -1, 0, 1, i8::MAX] {
            round_trip(v, rest);
        }
        for v in [i16::MIN, -256, -1, 0, 1, 255, 256, i16::MAX] {
            round_trip(v, rest);
        }
        for v in [i32::MIN, -65536, -1, 0, 1, 65535, 0x01020304, i32::MAX] {
            round_trip(v, rest);
        }
        for v in [0u8, 1, 127, 128, 255] {
            round_trip(v as Byte, rest);
        }
        round_trip([0u8, 255, 1, 254] as Byte4, rest);
    }
}

#[test]
fn strings_round_trip_and_take_one_byte_more() {
    for s in ["", "a", "aldabis", "SELECT 1", "h\u{e9}llo"] {
        for rest in [&[][..], &[0][..], &[b'x', 0][..]] {
            round_trip(text(s), rest);
        }
        let mut buffer = BytesMut::new();
        text(s).serialize(&mut buffer);
        assert_eq!(buffer.len(), s.len() + 1);
        assert_eq!(text(s).byte_size() as usize, s.len() + 1);
        assert_eq!(text(s).count_bytes(), s.len());
        assert_eq!(text(s).as_bytes(), s.as_bytes());
        assert_eq!(text(s).clone(), text(s));
    }
}

#[test]
fn arrays_round_trip() {
    for rest in [&[][..], &[0][..], &[7, 7][..]] {
        round_trip(Vec16::<i32>::from(vec![]), rest);
        round_trip(Vec16::<i32>::from(vec![1, -2, 3]), rest);
        round_trip(Vec16::<CString>::from(vec![text(""), text("a")]), rest);
        round_trip(Vec32::<Byte>::from(vec![]), rest);
        round_trip(Vec32::<Byte>::from(vec![0, 1, 255]), rest);
        round_trip(Vec32::<i16>::from(vec![-1, 0]), rest);
        round_trip(
            Vec16::<Vec32<Byte>>::from(vec![vec![1].into(), vec![].into()]),
            rest,
        );
    }
    // a terminated array takes up the whole buffer
    round_trip(VecNull::<i32>::from(vec![]), &[]);
    round_trip(VecNull::<i32>::from(vec![1, 2, 3]), &[]);
    round_trip(VecNull::<CString>::from(vec![text(""), text("b")]), &[]);
    round_trip(VecNull::<Byte>::from(vec![0, 0, 1]), &[]);
}

#[test]
fn arrays_hand_out_their_elements() {
    let mut array = Vec16::<i32>::from(vec![1, 2]);
    array.as_mut().push(3);
    assert_eq!(array.as_ref(), &vec![1, 2, 3]);
    let mut array = Vec32::<i32>::new();
    array.as_mut().push(3);
    assert_eq!(array.as_ref(), &vec![3]);
    let mut array = VecNull::<i32>::new();
    array.as_mut().push(4);
    assert_eq!(array.as_ref(), &vec![4]);
    assert_eq!(array.into_vec(), vec![4]);
}

#[test]
fn records_round_trip() {
    let column = |name: &str, pgtype: PgType| {
        ColumnDescription::new(&String::from(name), pgtype).unwrap()
    };
    let pair = |n: &str, v: &str| ParameterStatus::new(&String::from(n), &String::from(v)).unwrap();
    let field = |c: char, m: &str| ErrorMessage::new(c, &String::from(m)).unwrap();
    for rest in [&[][..], &[0][..], &[9, 9, 9][..]] {
        round_trip(RequestHeader { length: 8 }, rest);
        round_trip(
            MessageHeader {
                message_type: b'R',
                length: -1,
            },
            rest,
        );
        round_trip(AuthenticationOk::new(), rest);
        round_trip(AuthenticationMD5Password::new([1, 2, 3, 4]), rest);
        round_trip(BackendKeyData::new(-1, i32::MIN), rest);
        round_trip(CommandComplete::new(String::from("INSERT 0 1")).unwrap(), rest);
        round_trip(ColumnData::new(), rest);
        round_trip(ColumnData::null(), rest);
        round_trip(ColumnData::from(vec![0, 0xFF]), rest);
        round_trip(DataRow::new(vec![]), rest);
        round_trip(
            DataRow::new(vec![ColumnData::null(), ColumnData::from(vec![b'x'])]),
            rest,
        );
        round_trip(field('M', "message"), rest);
        round_trip(pair("name", "value"), rest);
        round_trip(pair("", ""), rest);
        round_trip(PasswordMessage::new(&String::from("md5")).unwrap(), rest);
        round_trip(Query::new(String::from("")).unwrap(), rest);
        round_trip(ReadyForQuery::new(TransactionIndicator::Idle), rest);
        round_trip(ProtocolVersion { major: 3, minor: 0 }, rest);
        round_trip(column("a", PgType::Bool), rest);
        round_trip(RowDescription::new(vec![]), rest);
        round_trip(
            RowDescription::new(vec![column("a", PgType::Int4), column("b", PgType::Oid)]),
            rest,
        );
    }
    // records that end in a terminated array take up the whole buffer
    round_trip(ErrorResponse::new(vec![]), &[]);
    round_trip(
        ErrorResponse::new(vec![field('S', "ERROR"), field('M', "no")]),
        &[],
    );
    round_trip(
        StartupMessage::new(ProtocolVersion { major: 3, minor: 0 }, vec![]),
        &[],
    );
    round_trip(
        StartupMessage::new(
            ProtocolVersion { major: 3, minor: 0 },
            vec![pair("user", "u"), pair("database", "d")],
        ),
        &[],
    );
}

/// Frames `message`, pulls the frame off again with `rest` behind it, and
/// projects it onto the type of the message.
fn framed_round_trip<T>(message: T, read: fn(&mut RawBackendMessage) -> T)
where
    T: MessageBody + Serialize + ByteSized + PartialEq + std::fmt::Debug,
{
    let mut buffer = BytesMut::new();
    put_message(&mut buffer, &message).unwrap();
    assert_eq!(buffer.len(), 5 + message.byte_size() as usize);
    buffer.extend_from_slice(&[1, 2, 3]);
    let mut stream = Bytes::from(buffer.to_vec());
    let mut frame = RawBackendMessage::get(&mut stream).unwrap();
    assert_eq!(frame.header.message_type, message.message_type());
    assert_eq!(frame.header.length, 4 + message.byte_size());
    assert_eq!(frame.header.length as usize, 4 + frame.raw_body.len());
    assert_eq!(stream.to_vec(), vec![1, 2, 3]);
    assert_eq!(read(&mut frame), message);
    assert_eq!(frame.raw_body.len(), 0);
}

#[test]
fn framed_messages_round_trip() {
    framed_round_trip(AuthenticationOk::new(), |f| {
        AuthenticationOk::try_from(f).unwrap()
    });
    framed_round_trip(AuthenticationMD5Password::new([4, 3, 2, 1]), |f| {
        AuthenticationMD5Password::try_from(f).unwrap()
    });
    framed_round_trip(BackendKeyData::new(1, 2), |f| {
        BackendKeyData::try_from(f).unwrap()
    });
    framed_round_trip(CommandComplete::new(String::from("UPDATE 3")).unwrap(), |f| {
        CommandComplete::try_from(f).unwrap()
    });
    framed_round_trip(
        DataRow::new(vec![ColumnData::null(), ColumnData::from(vec![1, 2])]),
        |f| DataRow::try_from(f).unwrap(),
    );
    framed_round_trip(
        ErrorResponse::new(vec![ErrorMessage::new('M', &String::from("no")).unwrap()]),
        |f| ErrorResponse::try_from(f).unwrap(),
    );
    framed_round_trip(
        ParameterStatus::new(&String::from("a"), &String::from("b")).unwrap(),
        |f| ParameterStatus::try_from(f).unwrap(),
    );
    framed_round_trip(
        ReadyForQuery::new(TransactionIndicator::IdleInTransaction),
        |f| ReadyForQuery::try_from(f).unwrap(),
    );
    framed_round_trip(
        RowDescription::new(vec![
            ColumnDescription::new(&String::from("c"), PgType::Text).unwrap()
        ]),
        |f| RowDescription::try_from(f).unwrap(),
    );
}
