//! The messages of a frontend.

use crate::buffer::{remaining, written};
use crate::error::{Error, Flaw};
use crate::libpq_types::cstring::nul_free;
use crate::libpq_types::{CString, VecNull};
use crate::message::backend::ParameterStatus;
use crate::message::header::{MessageBody, RequestBody};
use crate::message::kinds::RequestMessageKind;
use crate::message::raw::{
    deserialize_body, message_decoding, projects, typed_decoding,
    RawFrontendMessage, RawRequest,
};
use crate::record::lemma_skip_twice;
use crate::wire::{checked_sum, failed, ByteSized, Decoded, Deserialize, Serialize, Wire};
use bytes::{Bytes, BytesMut};
use vstd::prelude::*;
use vstd::std_specs::convert::TryFromSpecImpl;
use vstd::utf8::encode_utf8;

verus! {

/// The answer of a frontend to a request for a password. For the MD5 method
/// the password goes hashed: see [`crate::password`].
#[derive(Debug, PartialEq)]
pub struct PasswordMessage {
    pub password: CString,
}

impl Wire for PasswordMessage {
    type Value = Seq<u8>;

    open spec fn value(&self) -> Seq<u8> {
        self.password.value()
    }

    open spec fn well_formed(v: Seq<u8>) -> bool {
        CString::well_formed(v)
    }

    open spec fn encoding(v: Seq<u8>) -> Seq<u8> {
        CString::encoding(v)
    }

    open spec fn decoding(s: Seq<u8>) -> Decoded<Seq<u8>> {
        CString::decoding(s)
    }

    open spec fn fills_buffer() -> bool {
        CString::fills_buffer()
    }

    proof fn lemma_consumed_in_bounds(s: Seq<u8>) {
        CString::lemma_consumed_in_bounds(s);
    }

    proof fn lemma_round_trip(v: Seq<u8>, rest: Seq<u8>) {
        CString::lemma_round_trip(v, rest);
    }
}

impl ByteSized for PasswordMessage {
    fn checked_byte_size(&self) -> (size: Option<i32>) {
        self.password.checked_byte_size()
    }
}

impl Serialize for PasswordMessage {
    fn serialize(&self, buffer: &mut BytesMut) {
        self.password.serialize(buffer);
    }
}

impl Deserialize for PasswordMessage {
    fn deserialize(buffer: &mut Bytes) -> (r: Result<Self, Error>) {
        let password = CString::deserialize(buffer)?;
        Ok(PasswordMessage { password })
    }
}

impl MessageBody for PasswordMessage {
    open spec fn kind() -> u8 {
        0x70
    }

    fn message_type(&self) -> (kind: u8) {
        0x70  // 'p'
    }
}

impl PasswordMessage {
    /// The message that holds `password` as it is; none if the password
    /// holds a zero byte.
    pub fn new(password: &String) -> (r: Result<Self, Error>)
        ensures
            match r {
                Ok(message) => nul_free(encode_utf8(password@)) && message.password@
                    == encode_utf8(password@),
                Err(e) => !nul_free(encode_utf8(password@)) && e == Error::Malformed(
                    Flaw::InteriorNul,
                ),
            },
    {
        Ok(Self { password: CString::new(password.as_str())? })
    }
}

impl TryFrom<&mut RawFrontendMessage> for PasswordMessage {
    type Error = Error;

    /// Reads the message from a frame, which must be of this kind.
    fn try_from(message: &mut RawFrontendMessage) -> (r: Result<PasswordMessage, Error>)
        ensures
            projects::<PasswordMessage>(
                typed_decoding::<PasswordMessage>(
                    old(message).header.message_type,
                    remaining(old(message).raw_body),
                ),
                remaining(old(message).raw_body),
                remaining(final(message).raw_body),
                r,
            ),
            final(message).header == old(message).header,
    {
        if 0x70 == message.header.message_type {
            deserialize_body(&mut message.raw_body)
        } else {
            assert(remaining(message.raw_body).skip(0) =~= remaining(message.raw_body));
            Err(Error::UnexpectedMessage)
        }
    }
}

/// The result of `try_from` holds a message, which no function of
/// specifications can build: what `try_from` gives is stated on `try_from`.
impl TryFromSpecImpl<&mut RawFrontendMessage> for PasswordMessage {
    open spec fn obeys_try_from_spec() -> bool {
        false
    }

    open spec fn try_from_spec(message: &mut RawFrontendMessage) -> Result<PasswordMessage, Error> {
        Err(Error::UnexpectedMessage)
    }
}

/// A simple query: the text of one or more SQL commands.
#[derive(Debug, PartialEq)]
pub struct Query {
    pub query: CString,
}

impl Wire for Query {
    type Value = Seq<u8>;

    open spec fn value(&self) -> Seq<u8> {
        self.query.value()
    }

    open spec fn well_formed(v: Seq<u8>) -> bool {
        CString::well_formed(v)
    }

    open spec fn encoding(v: Seq<u8>) -> Seq<u8> {
        CString::encoding(v)
    }

    open spec fn decoding(s: Seq<u8>) -> Decoded<Seq<u8>> {
        CString::decoding(s)
    }

    open spec fn fills_buffer() -> bool {
        CString::fills_buffer()
    }

    proof fn lemma_consumed_in_bounds(s: Seq<u8>) {
        CString::lemma_consumed_in_bounds(s);
    }

    proof fn lemma_round_trip(v: Seq<u8>, rest: Seq<u8>) {
        CString::lemma_round_trip(v, rest);
    }
}

impl ByteSized for Query {
    fn checked_byte_size(&self) -> (size: Option<i32>) {
        self.query.checked_byte_size()
    }
}

impl Serialize for Query {
    fn serialize(&self, buffer: &mut BytesMut) {
        self.query.serialize(buffer);
    }
}

impl Deserialize for Query {
    fn deserialize(buffer: &mut Bytes) -> (r: Result<Self, Error>) {
        let query = CString::deserialize(buffer)?;
        Ok(Query { query })
    }
}

impl MessageBody for Query {
    open spec fn kind() -> u8 {
        0x51
    }

    fn message_type(&self) -> (kind: u8) {
        0x51  // 'Q'
    }
}

impl Query {
    /// The message that asks for `query`; none if the text holds a zero byte.
    pub fn new(query: String) -> (r: Result<Self, Error>)
        ensures
            match r {
                Ok(message) => nul_free(encode_utf8(query@)) && message.query@ == encode_utf8(
                    query@,
                ),
                Err(e) => !nul_free(encode_utf8(query@)) && e == Error::Malformed(
                    Flaw::InteriorNul,
                ),
            },
    {
        Ok(Self { query: CString::new(query.as_str())? })
    }
}

impl TryFrom<&mut RawFrontendMessage> for Query {
    type Error = Error;

    /// Reads the message from a frame, which must be of this kind.
    fn try_from(message: &mut RawFrontendMessage) -> (r: Result<Query, Error>)
        ensures
            projects::<Query>(
                typed_decoding::<Query>(
                    old(message).header.message_type,
                    remaining(old(message).raw_body),
                ),
                remaining(old(message).raw_body),
                remaining(final(message).raw_body),
                r,
            ),
            final(message).header == old(message).header,
    {
        if 0x51 == message.header.message_type {
            deserialize_body(&mut message.raw_body)
        } else {
            assert(remaining(message.raw_body).skip(0) =~= remaining(message.raw_body));
            Err(Error::UnexpectedMessage)
        }
    }
}

/// The result of `try_from` holds a message, which no function of
/// specifications can build: what `try_from` gives is stated on `try_from`.
impl TryFromSpecImpl<&mut RawFrontendMessage> for Query {
    open spec fn obeys_try_from_spec() -> bool {
        false
    }

    open spec fn try_from_spec(message: &mut RawFrontendMessage) -> Result<Query, Error> {
        Err(Error::UnexpectedMessage)
    }
}

/// The version of the protocol that a frontend asks for. Its four bytes are
/// the request code of a startup message: 196608 is the version 3.0.
#[derive(Debug, PartialEq)]
pub struct ProtocolVersion {
    pub major: i16,
    pub minor: i16,
}

impl Wire for ProtocolVersion {
    type Value = (i16, i16);

    open spec fn value(&self) -> (i16, i16) {
        (self.major.value(), self.minor.value())
    }

    open spec fn well_formed(v: (i16, i16)) -> bool {
        <(i16, i16)>::well_formed(v)
    }

    open spec fn encoding(v: (i16, i16)) -> Seq<u8> {
        <(i16, i16)>::encoding(v)
    }

    open spec fn decoding(s: Seq<u8>) -> Decoded<(i16, i16)> {
        <(i16, i16)>::decoding(s)
    }

    open spec fn fills_buffer() -> bool {
        <(i16, i16)>::fills_buffer()
    }

    proof fn lemma_consumed_in_bounds(s: Seq<u8>) {
        <(i16, i16)>::lemma_consumed_in_bounds(s);
    }

    proof fn lemma_round_trip(v: (i16, i16), rest: Seq<u8>) {
        <(i16, i16)>::lemma_round_trip(v, rest);
    }
}

impl ByteSized for ProtocolVersion {
    fn checked_byte_size(&self) -> (size: Option<i32>) {
        checked_sum(
            self.major.checked_byte_size(),
            self.minor.checked_byte_size(),
        )
    }
}

impl Serialize for ProtocolVersion {
    fn serialize(&self, buffer: &mut BytesMut) {
        self.major.serialize(buffer);
        self.minor.serialize(buffer);
        assert(written(*buffer) =~= written(*old(buffer)) + Self::encoding(self.value()));
    }
}

impl Deserialize for ProtocolVersion {
    fn deserialize(buffer: &mut Bytes) -> (r: Result<Self, Error>) {
        proof {
            lemma_skip_twice::<i16, i16>(remaining(*buffer));
        }
        let major = i16::deserialize(buffer)?;
        let minor = i16::deserialize(buffer)?;
        Ok(ProtocolVersion { major, minor })
    }
}

/// The request that opens a connection: the version of the protocol, and the
/// parameters of the session, of which `user` is required.
#[derive(Debug, PartialEq)]
pub struct StartupMessage {
    pub protocol_version: ProtocolVersion,
    pub parameters: VecNull<ParameterStatus>,
}

impl Wire for StartupMessage {
    type Value = ((i16, i16), Seq<(Seq<u8>, Seq<u8>)>);

    open spec fn value(&self) -> ((i16, i16), Seq<(Seq<u8>, Seq<u8>)>) {
        (self.protocol_version.value(), self.parameters.value())
    }

    open spec fn well_formed(v: ((i16, i16), Seq<(Seq<u8>, Seq<u8>)>)) -> bool {
        <(ProtocolVersion, VecNull<ParameterStatus>)>::well_formed(v)
    }

    open spec fn encoding(v: ((i16, i16), Seq<(Seq<u8>, Seq<u8>)>)) -> Seq<u8> {
        <(ProtocolVersion, VecNull<ParameterStatus>)>::encoding(v)
    }

    open spec fn decoding(s: Seq<u8>) -> Decoded<((i16, i16), Seq<(Seq<u8>, Seq<u8>)>)> {
        <(ProtocolVersion, VecNull<ParameterStatus>)>::decoding(s)
    }

    open spec fn fills_buffer() -> bool {
        <(ProtocolVersion, VecNull<ParameterStatus>)>::fills_buffer()
    }

    proof fn lemma_consumed_in_bounds(s: Seq<u8>) {
        <(ProtocolVersion, VecNull<ParameterStatus>)>::lemma_consumed_in_bounds(s);
    }

    proof fn lemma_round_trip(v: ((i16, i16), Seq<(Seq<u8>, Seq<u8>)>), rest: Seq<u8>) {
        <(ProtocolVersion, VecNull<ParameterStatus>)>::lemma_round_trip(v, rest);
    }
}

impl ByteSized for StartupMessage {
    fn checked_byte_size(&self) -> (size: Option<i32>) {
        checked_sum(
            self.protocol_version.checked_byte_size(),
            self.parameters.checked_byte_size(),
        )
    }
}

impl Serialize for StartupMessage {
    fn serialize(&self, buffer: &mut BytesMut) {
        self.protocol_version.serialize(buffer);
        self.parameters.serialize(buffer);
        assert(written(*buffer) =~= written(*old(buffer)) + Self::encoding(self.value()));
    }
}

impl Deserialize for StartupMessage {
    fn deserialize(buffer: &mut Bytes) -> (r: Result<Self, Error>) {
        proof {
            lemma_skip_twice::<ProtocolVersion, VecNull<ParameterStatus>>(remaining(*buffer));
        }
        let protocol_version = ProtocolVersion::deserialize(buffer)?;
        let parameters = VecNull::<ParameterStatus>::deserialize(buffer)?;
        Ok(StartupMessage { protocol_version, parameters })
    }
}

impl StartupMessage {
    /// The request for the version `protocol_version` with the parameters
    /// `parameters`.
    pub fn new(protocol_version: ProtocolVersion, parameters: Vec<ParameterStatus>) -> (message:
        Self)
        ensures
            message.protocol_version == protocol_version,
            message.parameters@ == parameters@,
    {
        Self { protocol_version, parameters: VecNull::from(parameters) }
    }
}

impl RequestBody for StartupMessage {

}

/// What projecting a request of the kind `request_kind` with the body `body`
/// onto a startup message gives.
pub open spec fn startup_decoding(request_kind: RequestMessageKind, body: Seq<u8>) -> Decoded<
    ((i16, i16), Seq<(Seq<u8>, Seq<u8>)>),
> {
    if request_kind == RequestMessageKind::StartupMessage {
        message_decoding::<StartupMessage>(body)
    } else {
        failed(Error::UnexpectedMessage, 0)
    }
}

impl TryFrom<&mut RawRequest> for StartupMessage {
    type Error = Error;

    /// Reads the message from a request, which must be a startup message.
    fn try_from(request: &mut RawRequest) -> (r: Result<StartupMessage, Error>)
        ensures
            projects::<StartupMessage>(
                startup_decoding(old(request).request_kind, remaining(old(request).raw_body)),
                remaining(old(request).raw_body),
                remaining(final(request).raw_body),
                r,
            ),
            final(request).header == old(request).header,
            final(request).request_kind == old(request).request_kind,
    {
        if let RequestMessageKind::StartupMessage = request.request_kind {
            deserialize_body(&mut request.raw_body)
        } else {
            assert(remaining(request.raw_body).skip(0) =~= remaining(request.raw_body));
            Err(Error::UnexpectedMessage)
        }
    }
}

/// The result of `try_from` holds a message, which no function of
/// specifications can build: what `try_from` gives is stated on `try_from`.
impl TryFromSpecImpl<&mut RawRequest> for StartupMessage {
    open spec fn obeys_try_from_spec() -> bool {
        false
    }

    open spec fn try_from_spec(request: &mut RawRequest) -> Result<StartupMessage, Error> {
        Err(Error::UnexpectedMessage)
    }
}

} // verus!
