//! The headers that go before a body on the wire, and what a body tells of
//! itself.

use crate::buffer::{put_i32, put_u8, remaining, written};
use crate::error::{Error, Flaw};
use crate::record::lemma_skip_twice;
use crate::wire::{checked_sum, ByteSized, Decoded, Deserialize, Serialize, Wire};
use bytes::{Bytes, BytesMut};
use vstd::prelude::*;

verus! {

/// The body of a request: a message that a frontend sends, without a kind
/// byte, to start a connection.
pub trait RequestBody {

}

/// The body of a message that goes in a frame with a kind byte.
pub trait MessageBody {
    /// The kind byte of every message of the type.
    spec fn kind() -> u8;

    /// The kind byte of the message.
    fn message_type(&self) -> (kind: u8)
        ensures
            kind == Self::kind(),
    ;
}

/// What goes before the body of a request: the length of the request, which
/// counts its own four bytes and the body.
#[derive(Debug, PartialEq)]
pub struct RequestHeader {
    pub length: i32,
}

impl Wire for RequestHeader {
    type Value = i32;

    open spec fn value(&self) -> i32 {
        self.length.value()
    }

    open spec fn well_formed(v: i32) -> bool {
        i32::well_formed(v)
    }

    open spec fn encoding(v: i32) -> Seq<u8> {
        i32::encoding(v)
    }

    open spec fn decoding(s: Seq<u8>) -> Decoded<i32> {
        i32::decoding(s)
    }

    open spec fn fills_buffer() -> bool {
        i32::fills_buffer()
    }

    proof fn lemma_consumed_in_bounds(s: Seq<u8>) {
        i32::lemma_consumed_in_bounds(s);
    }

    proof fn lemma_round_trip(v: i32, rest: Seq<u8>) {
        i32::lemma_round_trip(v, rest);
    }
}

impl ByteSized for RequestHeader {
    fn checked_byte_size(&self) -> (size: Option<i32>) {
        self.length.checked_byte_size()
    }
}

impl Serialize for RequestHeader {
    fn serialize(&self, buffer: &mut BytesMut) {
        self.length.serialize(buffer);
    }
}

impl Deserialize for RequestHeader {
    fn deserialize(buffer: &mut Bytes) -> (r: Result<Self, Error>) {
        let length = i32::deserialize(buffer)?;
        Ok(RequestHeader { length })
    }
}

/// What goes before the body of a message: its kind byte and the length of the
/// message, which counts its own four bytes and the body, not the kind byte.
#[derive(Debug, PartialEq)]
pub struct MessageHeader {
    pub message_type: u8,
    pub length: i32,
}

impl Wire for MessageHeader {
    type Value = (u8, i32);

    open spec fn value(&self) -> (u8, i32) {
        (self.message_type.value(), self.length.value())
    }

    open spec fn well_formed(v: (u8, i32)) -> bool {
        <(u8, i32)>::well_formed(v)
    }

    open spec fn encoding(v: (u8, i32)) -> Seq<u8> {
        <(u8, i32)>::encoding(v)
    }

    open spec fn decoding(s: Seq<u8>) -> Decoded<(u8, i32)> {
        <(u8, i32)>::decoding(s)
    }

    open spec fn fills_buffer() -> bool {
        <(u8, i32)>::fills_buffer()
    }

    proof fn lemma_consumed_in_bounds(s: Seq<u8>) {
        <(u8, i32)>::lemma_consumed_in_bounds(s);
    }

    proof fn lemma_round_trip(v: (u8, i32), rest: Seq<u8>) {
        <(u8, i32)>::lemma_round_trip(v, rest);
    }
}

impl ByteSized for MessageHeader {
    fn checked_byte_size(&self) -> (size: Option<i32>) {
        checked_sum(
            self.message_type.checked_byte_size(),
            self.length.checked_byte_size(),
        )
    }
}

impl Serialize for MessageHeader {
    fn serialize(&self, buffer: &mut BytesMut) {
        self.message_type.serialize(buffer);
        self.length.serialize(buffer);
        assert(written(*buffer) =~= written(*old(buffer)) + Self::encoding(self.value()));
    }
}

impl Deserialize for MessageHeader {
    fn deserialize(buffer: &mut Bytes) -> (r: Result<Self, Error>) {
        proof {
            lemma_skip_twice::<u8, i32>(remaining(*buffer));
        }
        let message_type = u8::deserialize(buffer)?;
        let length = i32::deserialize(buffer)?;
        Ok(MessageHeader { message_type, length })
    }
}

impl MessageHeader {
    /// The header that goes before `body`.
    pub fn new_header_from_body<T>(body: &T) -> (header: Self) where T: MessageBody + ByteSized
        requires
            T::encoding(body.value()).len() + 4 <= i32::MAX,
        ensures
            header.message_type == T::kind(),
            header.length == T::encoding(body.value()).len() + 4,
    {
        Self { message_type: body.message_type(), length: body.byte_size() + 4 }
    }

    /// Appends to `buffer` the header that goes before `body`.
    pub fn new_raw_header_from_body<T>(buffer: &mut BytesMut, body: &T) where
        T: MessageBody + ByteSized,

        requires
            T::encoding(body.value()).len() + 4 <= i32::MAX,
            written(*old(buffer)).len() + 5 <= isize::MAX,
        ensures
            written(*final(buffer)) == written(*old(buffer)) + MessageHeader::encoding(
                (T::kind(), (T::encoding(body.value()).len() + 4) as i32),
            ),
    {
        put_u8(buffer, body.message_type());
        put_i32(buffer, body.byte_size() + 4);
        assert(written(*buffer) =~= written(*old(buffer)) + MessageHeader::encoding(
            (T::kind(), (T::encoding(body.value()).len() + 4) as i32),
        ));
    }

    /// The number of bytes of the body that follows the header; none where
    /// the length is less than the four bytes that it counts for itself.
    pub fn body_length(&self) -> (r: Result<usize, Error>)
        ensures
            r == body_length_of(self.length),
    {
        body_length(self.length)
    }
}

impl RequestHeader {
    /// The number of bytes of the body that follows the header; none where
    /// the length is less than the four bytes that it counts for itself.
    pub fn body_length(&self) -> (r: Result<usize, Error>)
        ensures
            r == body_length_of(self.length),
    {
        body_length(self.length)
    }
}

/// The number of body bytes that a length field announces.
pub open spec fn body_length_of(length: i32) -> Result<usize, Error> {
    if length >= 4 {
        Ok((length - 4) as usize)
    } else {
        Err(Error::Malformed(Flaw::LengthTooSmall))
    }
}

/// The largest body that a careful reader takes from a stream: 256 MiB.
pub const MAX_BODY_LENGTH: usize = 0x1000_0000;

/// The number of body bytes that a length field announces, for a reader that
/// takes bodies of `limit` bytes at most.
pub open spec fn body_length_within_of(length: i32, limit: usize) -> Result<usize, Error> {
    match body_length_of(length) {
        Ok(n) => if n <= limit {
            Ok(n)
        } else {
            Err(Error::Malformed(Flaw::TooLarge))
        },
        Err(e) => Err(e),
    }
}

/// The number of body bytes that a length field announces; none where the
/// length is less than the four bytes that it counts for itself, and none
/// where the body is longer than `limit`.
pub fn body_length_within(length: i32, limit: usize) -> (r: Result<usize, Error>)
    ensures
        r == body_length_within_of(length, limit),
{
    let n = body_length(length)?;
    if n <= limit {
        Ok(n)
    } else {
        Err(Error::Malformed(Flaw::TooLarge))
    }
}

/// The number of body bytes that a length field announces; none where the
/// length is less than the four bytes that it counts for itself.
pub fn body_length(length: i32) -> (r: Result<usize, Error>)
    ensures
        r == body_length_of(length),
        r matches Ok(n) ==> n == length - 4,
{
    if length >= 4 {
        Ok((length - 4) as usize)
    } else {
        Err(Error::Malformed(Flaw::LengthTooSmall))
    }
}

} // verus!
