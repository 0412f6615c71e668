use bytes::{Bytes, BytesMut};
use fakepostmaster::libpq_types::{Byte, Byte4, CString, Vec16, Vec32};
use fakepostmaster::wire::{ByteSized, Deserialize, Serialize};

type AllTypes = (Byte, (Byte4, (i16, (i32, (CString, (Vec16<CString>, Vec32<Byte>))))));

fn example_struct() -> AllTypes {
    (
        0x01,
        (
            [0x00, 0x00, 0x00, 0x00],
            (
                125,
                (
                    521,
                    (
                        CString::new("aldabis").expect("No 0x00 in string"),
                        (
                            vec![
                                CString::new("aldabis").expect("There is no 0x00 inside"),
                                CString::new("aldabis").expect("There is no 0x00 inside"),
                            ]
                            .into(),
                            vec![0x01, 0x02].into(),
                        ),
                    ),
                ),
            ),
        ),
    )
}

fn example_from_serialize() -> BytesMut {
    let mut m = BytesMut::new();

    (1 as Byte).serialize(&mut m);
    ([0x00, 0x00, 0x00, 0x00] as Byte4).serialize(&mut m);
    125i16.serialize(&mut m);
    521i32.serialize(&mut m);
    CString::new("aldabis")
        .expect("No 0x00 in string")
        .serialize(&mut m);
    Vec16::<CString>::from(vec![
        CString::new("aldabis").expect("There is no 0x00 inside"),
        CString::new("aldabis").expect("There is no 0x00 inside"),
    ])
    .serialize(&mut m);
    Vec32::<Byte>::from(vec![0x01, 0x02]).serialize(&mut m);

    m
}

#[test]
fn derive_macro_serialize_struct() {
    let s = example_struct();

    let mut m = Bytes::from(example_from_serialize());
    assert_eq!(s, <AllTypes>::deserialize(&mut m).unwrap());
}

#[test]
fn derive_macro_deserialize_struct() {
    let b = example_struct();
    let m = example_from_serialize();

    assert_eq!(b.byte_size(), m.len() as i32);
}

#[test]
fn derive_macro_bytesize_struct() {
    let b = example_struct();
    let m = example_from_serialize();

    assert_eq!(b.byte_size(), m.len() as i32);
}

#[test]
fn record_serializes_its_fields_in_order() {
    let s = example_struct();
    let mut m = BytesMut::new();
    s.serialize(&mut m);
    assert_eq!(example_from_serialize().to_vec(), m.to_vec());
}
