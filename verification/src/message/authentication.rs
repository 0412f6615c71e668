//! The authentication messages of a backend. They share the kind byte `R`;
//! the code at the front of the body tells them apart.

use crate::buffer::{remaining, written};
use crate::error::Error;
use crate::libpq_types::Byte4;
use crate::message::header::MessageBody;
use crate::message::kinds::AuthenticationMessageKind;
use crate::message::raw::{auth_decoding, deserialize_body, projects, RawBackendMessage};
use crate::record::lemma_skip_twice;
use crate::wire::{checked_sum, ByteSized, Decoded, Deserialize, Serialize, Wire};
use bytes::{Bytes, BytesMut};
use vstd::prelude::*;
use vstd::std_specs::convert::TryFromSpecImpl;

verus! {

/// Tells the frontend that the authentication was successful. The body is the
/// code 0 alone.
#[derive(Debug, PartialEq)]
pub struct AuthenticationOk {
    pub code: i32,
}

impl Wire for AuthenticationOk {
    type Value = i32;

    open spec fn value(&self) -> i32 {
        self.code.value()
    }

    open spec fn well_formed(v: i32) -> bool {
        i32::well_formed(v)
    }

    open spec fn encoding(v: i32) -> Seq<u8> {
        i32::encoding(v)
    }

    open spec fn decoding(s: Seq<u8>) -> Decoded<i32> {
        i32::decoding(s)
    }

    open spec fn fills_buffer() -> bool {
        i32::fills_buffer()
    }

    proof fn lemma_consumed_in_bounds(s: Seq<u8>) {
        i32::lemma_consumed_in_bounds(s);
    }

    proof fn lemma_round_trip(v: i32, rest: Seq<u8>) {
        i32::lemma_round_trip(v, rest);
    }
}

impl ByteSized for AuthenticationOk {
    fn checked_byte_size(&self) -> (size: Option<i32>) {
        self.code.checked_byte_size()
    }
}

impl Serialize for AuthenticationOk {
    fn serialize(&self, buffer: &mut BytesMut) {
        self.code.serialize(buffer);
    }
}

impl Deserialize for AuthenticationOk {
    fn deserialize(buffer: &mut Bytes) -> (r: Result<Self, Error>) {
        let code = i32::deserialize(buffer)?;
        Ok(AuthenticationOk { code })
    }
}

impl MessageBody for AuthenticationOk {
    open spec fn kind() -> u8 {
        0x52
    }

    fn message_type(&self) -> (kind: u8) {
        0x52  // 'R'
    }
}

impl AuthenticationOk {
    /// The message, with the code 0.
    pub fn new() -> (message: Self)
        ensures
            message.code == 0,
    {
        Self { code: 0 }
    }
}

impl TryFrom<&mut RawBackendMessage> for AuthenticationOk {
    type Error = Error;

    /// Reads the message from a frame, which must be an authentication
    /// message of this kind.
    fn try_from(message: &mut RawBackendMessage) -> (r: Result<AuthenticationOk, Error>)
        ensures
            projects::<AuthenticationOk>(
                auth_decoding::<AuthenticationOk>(
                    AuthenticationMessageKind::Success,
                    old(message).header.message_type,
                    remaining(old(message).raw_body),
                ),
                remaining(old(message).raw_body),
                remaining(final(message).raw_body),
                r,
            ),
            final(message).header == old(message).header,
    {
        if let Some(AuthenticationMessageKind::Success) = message.get_auth_message_kind() {
            return deserialize_body(&mut message.raw_body);
        }
        assert(remaining(message.raw_body).skip(0) =~= remaining(message.raw_body));
        Err(Error::UnexpectedMessage)
    }
}

/// The result of `try_from` holds a message, which no function of
/// specifications can build: what `try_from` gives is stated on `try_from`.
impl TryFromSpecImpl<&mut RawBackendMessage> for AuthenticationOk {
    open spec fn obeys_try_from_spec() -> bool {
        false
    }

    open spec fn try_from_spec(message: &mut RawBackendMessage) -> Result<AuthenticationOk, Error> {
        Err(Error::UnexpectedMessage)
    }
}

/// Asks the frontend for a password hashed with MD5. The body is the code 5
/// and the salt to hash the password with.
#[derive(Debug, PartialEq)]
pub struct AuthenticationMD5Password {
    pub code: i32,
    pub salt: Byte4,
}

impl Wire for AuthenticationMD5Password {
    type Value = (i32, Seq<u8>);

    open spec fn value(&self) -> (i32, Seq<u8>) {
        (self.code.value(), self.salt.value())
    }

    open spec fn well_formed(v: (i32, Seq<u8>)) -> bool {
        <(i32, Byte4)>::well_formed(v)
    }

    open spec fn encoding(v: (i32, Seq<u8>)) -> Seq<u8> {
        <(i32, Byte4)>::encoding(v)
    }

    open spec fn decoding(s: Seq<u8>) -> Decoded<(i32, Seq<u8>)> {
        <(i32, Byte4)>::decoding(s)
    }

    open spec fn fills_buffer() -> bool {
        <(i32, Byte4)>::fills_buffer()
    }

    proof fn lemma_consumed_in_bounds(s: Seq<u8>) {
        <(i32, Byte4)>::lemma_consumed_in_bounds(s);
    }

    proof fn lemma_round_trip(v: (i32, Seq<u8>), rest: Seq<u8>) {
        <(i32, Byte4)>::lemma_round_trip(v, rest);
    }
}

impl ByteSized for AuthenticationMD5Password {
    fn checked_byte_size(&self) -> (size: Option<i32>) {
        checked_sum(
            self.code.checked_byte_size(),
            self.salt.checked_byte_size(),
        )
    }
}

impl Serialize for AuthenticationMD5Password {
    fn serialize(&self, buffer: &mut BytesMut) {
        self.code.serialize(buffer);
        self.salt.serialize(buffer);
        assert(written(*buffer) =~= written(*old(buffer)) + Self::encoding(self.value()));
    }
}

impl Deserialize for AuthenticationMD5Password {
    fn deserialize(buffer: &mut Bytes) -> (r: Result<Self, Error>) {
        proof {
            lemma_skip_twice::<i32, Byte4>(remaining(*buffer));
        }
        let code = i32::deserialize(buffer)?;
        let salt = Byte4::deserialize(buffer)?;
        Ok(AuthenticationMD5Password { code, salt })
    }
}

impl MessageBody for AuthenticationMD5Password {
    open spec fn kind() -> u8 {
        0x52
    }

    fn message_type(&self) -> (kind: u8) {
        0x52  // 'R'
    }
}

impl AuthenticationMD5Password {
    /// The message that asks for a password hashed with `salt`, with the code 5.
    pub fn new(salt: Byte4) -> (message: Self)
        ensures
            message.code == 5,
            message.salt == salt,
    {
        Self { code: 5, salt }
    }
}

impl TryFrom<&mut RawBackendMessage> for AuthenticationMD5Password {
    type Error = Error;

    /// Reads the message from a frame, which must be an authentication
    /// message of this kind.
    fn try_from(message: &mut RawBackendMessage) -> (r: Result<AuthenticationMD5Password, Error>)
        ensures
            projects::<AuthenticationMD5Password>(
                auth_decoding::<AuthenticationMD5Password>(
                    AuthenticationMessageKind::MD5Password,
                    old(message).header.message_type,
                    remaining(old(message).raw_body),
                ),
                remaining(old(message).raw_body),
                remaining(final(message).raw_body),
                r,
            ),
            final(message).header == old(message).header,
    {
        if let Some(AuthenticationMessageKind::MD5Password) = message.get_auth_message_kind() {
            return deserialize_body(&mut message.raw_body);
        }
        assert(remaining(message.raw_body).skip(0) =~= remaining(message.raw_body));
        Err(Error::UnexpectedMessage)
    }
}

/// The result of `try_from` holds a message, which no function of
/// specifications can build: what `try_from` gives is stated on `try_from`.
impl TryFromSpecImpl<&mut RawBackendMessage> for AuthenticationMD5Password {
    open spec fn obeys_try_from_spec() -> bool {
        false
    }

    open spec fn try_from_spec(message: &mut RawBackendMessage) -> Result<
        AuthenticationMD5Password,
        Error,
    > {
        Err(Error::UnexpectedMessage)
    }
}

} // verus!
