use fakepostmaster::backend::{BackendMessage, ErrorMessage, RowDescription};
use fakepostmaster::error::{Error, Flaw};

#[test]
fn test_row_description() {
    let bm = BackendMessage::RowDescription {
        columns: vec![RowDescription {
            name: String::from("set_config"),
            relation_id: 0,
            attribute_id: 0,
            datatype_id: 25,
            datatype_len: -1,
            datatype_mod: -1,
            format: 153,
        }],
    };
    assert_eq!(
        bm.compose().unwrap().to_vec(),
        [
            0x54, 0x00, 0x00, 0x00, 0x23, 0x00, 0x01, 0x73, 0x65, 0x74, 0x5f, 0x63, 0x6f, 0x6e,
            0x66, 0x69, 0x67, 0x00, 0x00, 0x00, 0x00, 0x00, 0x00, 0x00, 0x00, 0x00, 0x00, 0x19,
            0xff, 0xff, 0xff, 0xff, 0xff, 0xff, 0x00, 0x99
        ]
    );
}

#[test]
fn test_parameter_status() {
    let bm = BackendMessage::ParameterStatus {
        parameter: String::from("server_version"),
        value: String::from("14.17 (Debian 14.17-1 pgdg120+1)"),
    };
    assert_eq!(
        bm.compose().unwrap().to_vec(),
        [
            0x53, 0x00, 0x00, 0x00, 0x34, 's' as u8, 'e' as u8, 'r' as u8, 'v' as u8,
            'e' as u8, 'r' as u8, '_' as u8, 'v' as u8, 'e' as u8, 'r' as u8, 's' as u8,
            'i' as u8, 'o' as u8, 'n' as u8, 0x00, '1' as u8, '4' as u8, '.' as u8, '1' as u8,
            '7' as u8, ' ' as u8, '(' as u8, 'D' as u8, 'e' as u8, 'b' as u8, 'i' as u8,
            'a' as u8, 'n' as u8, ' ' as u8, '1' as u8, '4' as u8, '.' as u8, '1' as u8,
            '7' as u8, '-' as u8, '1' as u8, ' ' as u8, 'p' as u8, 'g' as u8, 'd' as u8,
            'g' as u8, '1' as u8, '2' as u8, '0' as u8, '+' as u8, '1' as u8, ')' as u8, 0x00
        ]
    );
}

#[test]
fn test_command_complete() {
    let bm = BackendMessage::CommandComplete {
        command_tag: String::from("SELECT 1"),
    };
    assert_eq!(
        bm.compose().unwrap().to_vec(),
        [
            0x43, 0x00, 0x00, 0x00, 0x0d, 'S' as u8, 'E' as u8, 'L' as u8, 'E' as u8,
            'C' as u8, 'T' as u8, ' ' as u8, '1' as u8, 0x00
        ]
    );
}

#[test]
fn test_ready_for_query() {
    let bm = BackendMessage::ReadyForQuery;
    assert_eq!(
        bm.compose().unwrap().to_vec(),
        [0x5a, 0x00, 0x00, 0x00, 0x05, 0x49]
    );
}

#[test]
fn compose_authentication_ok() {
    let bm = BackendMessage::AuthenticationOk;
    assert_eq!(
        bm.compose().unwrap().to_vec(),
        [0x52, 0x00, 0x00, 0x00, 0x08, 0x00, 0x00, 0x00, 0x00]
    );
}

#[test]
fn compose_authentication_md5_password() {
    let bm = BackendMessage::AuthenticationMD5Password { salt: [1, 2, 3, 4] };
    assert_eq!(
        bm.compose().unwrap().to_vec(),
        [0x52, 0x00, 0x00, 0x00, 0x0c, 0x00, 0x00, 0x00, 0x05, 0x01, 0x02, 0x03, 0x04]
    );
}

#[test]
fn compose_data_row() {
    let bm = BackendMessage::DataRow {
        columns: vec![String::from("1"), String::from("ab")],
    };
    assert_eq!(
        bm.compose().unwrap().to_vec(),
        [
            0x44, 0x00, 0x00, 0x00, 0x11, 0x00, 0x02, 0x00, 0x00, 0x00, 0x01, '1' as u8, 0x00,
            0x00, 0x00, 0x02, 'a' as u8, 'b' as u8
        ]
    );
}

#[test]
fn compose_data_row_without_columns() {
    let bm = BackendMessage::DataRow { columns: vec![] };
    assert_eq!(
        bm.compose().unwrap().to_vec(),
        [0x44, 0x00, 0x00, 0x00, 0x06, 0x00, 0x00]
    );
}

#[test]
fn compose_error_response() {
    let bm = BackendMessage::ErrorResponse {
        messages: vec![ErrorMessage {
            code: 'M',
            message: String::from("no"),
        }],
    };
    assert_eq!(
        bm.compose().unwrap().to_vec(),
        [0x45, 0x00, 0x00, 0x00, 0x09, 0x4d, 'n' as u8, 'o' as u8, 0x00, 0x00]
    );
}

#[test]
fn compose_refuses_a_zero_byte_in_a_text() {
    let bm = BackendMessage::CommandComplete {
        command_tag: String::from("SELECT\0 1"),
    };
    assert_eq!(
        bm.compose().unwrap_err(),
        Error::Malformed(Flaw::InteriorNul)
    );
    let bm = BackendMessage::ParameterStatus {
        parameter: String::from("a"),
        value: String::from("\0"),
    };
    assert_eq!(
        bm.compose().unwrap_err(),
        Error::Malformed(Flaw::InteriorNul)
    );
    let bm = BackendMessage::ErrorResponse {
        messages: vec![
            ErrorMessage {
                code: 'S',
                message: String::from("ERROR"),
            },
            ErrorMessage {
                code: 'M',
                message: String::from("a\0b"),
            },
        ],
    };
    assert_eq!(
        bm.compose().unwrap_err(),
        Error::Malformed(Flaw::InteriorNul)
    );
}

#[test]
fn compose_refuses_more_columns_than_the_count_holds() {
    let mut columns = Vec::new();
    for _ in 0..32768 {
        columns.push(String::new());
    }
    let bm = BackendMessage::DataRow { columns };
    assert_eq!(bm.compose().unwrap_err(), Error::Malformed(Flaw::TooLarge));

    let mut columns = Vec::new();
    for _ in 0..32767 {
        columns.push(String::new());
    }
    let bm = BackendMessage::DataRow { columns };
    let frame = bm.compose().unwrap().to_vec();
    assert_eq!(frame.len(), 1 + 4 + 2 + 4 * 32767);
    assert_eq!(&frame[5..7], &[0x7f, 0xff]);
}
