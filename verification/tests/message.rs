use bytes::{Bytes, BytesMut};
use fakepostmaster::libpq_types::Byte;
use fakepostmaster::message::{AuthenticationOk, ColumnData, DataRow, MessageHeader};
use fakepostmaster::wire::{ByteSized, Deserialize, Serialize};

#[test]
fn authentication_ok_serialize() {
    let m = AuthenticationOk::new();
    let h = MessageHeader {
        message_type: 'R' as u8,
        length: 4 + m.byte_size(),
    };
    let mut buffer = BytesMut::new();
    h.serialize(&mut buffer);
    m.serialize(&mut buffer);

    let e = vec![0x52, 0x00, 0x00, 0x00, 0x08, 0x00, 0x00, 0x00, 0x00];
    assert_eq!(e, buffer.to_vec());
}

#[test]
fn authentication_ok_deserialize() {
    let m = AuthenticationOk::new();
    let h = MessageHeader {
        message_type: 'R' as u8,
        length: 4 + m.byte_size(),
    };

    let mut buffer = Bytes::from(vec![0x52, 0x00, 0x00, 0x00, 0x08, 0x00, 0x00, 0x00, 0x00]);
    let h2 = MessageHeader::deserialize(&mut buffer).unwrap();
    let m2 = AuthenticationOk::deserialize(&mut buffer).unwrap();
    assert_eq!(m, m2);
    assert_eq!(h, h2);
}

#[test]
fn datarow_emptydata_deserialize() {
    let m = DataRow::new(Vec::<ColumnData>::from([ColumnData::new()]));
    let h = MessageHeader {
        message_type: 'D' as u8,
        length: 4 + m.byte_size(),
    };

    let mut buffer = Bytes::from(vec![
        0x44, 0x00, 0x00, 0x00, 0x0a, 0x00, 0x01, 0x00, 0x00, 0x00, 0x00,
    ]);
    let h2 = MessageHeader::deserialize(&mut buffer).unwrap();
    let m2 = DataRow::deserialize(&mut buffer).unwrap();
    assert_eq!(m, m2);
    assert_eq!(h, h2);
}

#[test]
fn datarow_onebytecol_deserialize() {
    let col_data = Vec::<Byte>::from(['1' as u8]);
    let m = DataRow::new(Vec::<ColumnData>::from([ColumnData::from(col_data)]));
    let h = MessageHeader {
        message_type: 'D' as u8,
        length: 4 + m.byte_size(),
    };

    let mut buffer = Bytes::from(vec![
        0x44, 0x00, 0x00, 0x00, 0x0b, 0x00, 0x01, 0x00, 0x00, 0x00, 0x01, '1' as u8,
    ]);
    let h2 = MessageHeader::deserialize(&mut buffer).unwrap();
    let m2 = DataRow::deserialize(&mut buffer).unwrap();
    assert_eq!(m, m2);
    assert_eq!(h, h2);
}
