//! Raw envelopes: frames pulled off a byte stream whose body is still opaque.
//!
//! A frame is a kind byte, a length and a body. The length counts itself and
//! the body. A request, which a frontend sends before the connection is set
//! up, has no kind byte: its body starts with a request code instead.

use crate::buffer::{i32_of_be, remaining, remaining_len, share, split_to, try_get_i32};
use crate::error::{Error, Flaw};
use crate::message::header::{MessageBody, MessageHeader, RequestHeader};
use crate::message::kinds::{
    AuthenticationMessageKind, BackendMessageKind, FrontendMessageKind, RequestMessageKind,
};
use crate::wire::{failed, read, Decoded, Deserialize, Wire};
use bytes::Bytes;
use vstd::prelude::*;

verus! {

/// What pulling a body off the front of `s` gives, behind a header that took
/// `consumed` bytes and announced the length `length`.
pub open spec fn body_decoding(s: Seq<u8>, consumed: int, length: i32) -> Decoded<Seq<u8>> {
    let after = s.skip(consumed);
    if length < 4 {
        failed(Error::Malformed(Flaw::LengthTooSmall), consumed)
    } else if after.len() < length - 4 {
        failed(Error::BufferUnderflow, consumed)
    } else {
        read(after.take(length - 4), consumed + length - 4)
    }
}

/// What pulling one frame off the front of `s` gives: the kind byte, the
/// length and the body.
pub open spec fn frame_decoding(s: Seq<u8>) -> Decoded<((u8, i32), Seq<u8>)> {
    let header = MessageHeader::decoding(s);
    match header.outcome {
        Err(e) => failed(e, header.consumed),
        Ok(h) => {
            let body = body_decoding(s, header.consumed, h.1);
            match body.outcome {
                Err(e) => failed(e, body.consumed),
                Ok(b) => read((h, b), body.consumed),
            }
        },
    }
}

/// The request code at the front of the body of a request, if the body is
/// long enough to hold one.
pub open spec fn request_code(body: Seq<u8>) -> Option<i32> {
    if body.len() >= 4 {
        Some(i32_of_be(body[0], body[1], body[2], body[3]))
    } else {
        None
    }
}

/// What pulling one request off the front of `s` gives: the length, the kind
/// that the request code stands for and the body, request code included.
pub open spec fn request_decoding(s: Seq<u8>) -> Decoded<(i32, RequestMessageKind, Seq<u8>)> {
    let header = RequestHeader::decoding(s);
    match header.outcome {
        Err(e) => failed(e, header.consumed),
        Ok(length) => {
            let body = body_decoding(s, header.consumed, length);
            match body.outcome {
                Err(e) => failed(e, body.consumed),
                Ok(b) => match request_code(b) {
                    None => failed(Error::BufferUnderflow, body.consumed),
                    Some(code) => match RequestMessageKind::of_code(code) {
                        None => failed(Error::UnsupportedKind, body.consumed),
                        Some(kind) => read((length, kind, b), body.consumed),
                    },
                },
            }
        },
    }
}

/// Takes off the front of `buffer` the body that a header with the length
/// `length` announces. `consumed` is what the header took.
pub(crate) fn get_body(
    buffer: &mut Bytes,
    Ghost(s): Ghost<Seq<u8>>,
    Ghost(consumed): Ghost<int>,
    length: i32,
) -> (r: Result<Bytes, Error>)
    requires
        0 <= consumed <= s.len(),
        remaining(*old(buffer)) == s.skip(consumed),
    ensures
        match body_decoding(s, consumed, length).outcome {
            Ok(b) => r is Ok && remaining(r->Ok_0) == b && remaining(r->Ok_0).len() == length - 4,
            Err(e) => r == Err::<Bytes, Error>(e),
        },
        remaining(*final(buffer)) == s.skip(body_decoding(s, consumed, length).consumed),
{
    if length < 4 {
        return Err(Error::Malformed(Flaw::LengthTooSmall));
    }
    let n = (length - 4) as usize;
    if remaining_len(buffer) < n {
        return Err(Error::BufferUnderflow);
    }
    let body = split_to(buffer, n);
    assert(s.skip(consumed).skip(n as int) =~= s.skip(consumed + n));
    Ok(body)
}

/// A request in raw form, which can be turned into the body of a request
/// message.
#[derive(Debug)]
pub struct RawRequest {
    pub header: RequestHeader,
    pub request_kind: RequestMessageKind,
    pub raw_body: Bytes,
}

impl RawRequest {
    /// Pulls one request off the front of `buffer`: four bytes of length,
    /// then the body, whose first four bytes must be a request code.
    pub fn get(buffer: &mut Bytes) -> (r: Result<Self, Error>)
        ensures
            match request_decoding(remaining(*old(buffer))).outcome {
                Ok((length, kind, body)) => r is Ok && r->Ok_0.header.length == length
                    && r->Ok_0.request_kind == kind && remaining(r->Ok_0.raw_body) == body,
                Err(e) => r is Err && r->Err_0 == e,
            },
            remaining(*final(buffer)) == remaining(*old(buffer)).skip(
                request_decoding(remaining(*old(buffer))).consumed,
            ),
            r is Ok ==> r->Ok_0.header.length == 4 + remaining(r->Ok_0.raw_body).len(),
    {
        let ghost s = remaining(*buffer);
        proof {
            RequestHeader::lemma_consumed_in_bounds(s);
        }
        let header = RequestHeader::deserialize(buffer)?;
        let raw_body = get_body(buffer, Ghost(s), Ghost(4), header.length)?;
        let mut peek = share(&raw_body);
        let request_code = match try_get_i32(&mut peek) {
            Ok(code) => code,
            Err(_) => {
                return Err(Error::BufferUnderflow);
            },
        };
        let request_kind = RequestMessageKind::try_from(request_code)?;
        Ok(Self { header, request_kind, raw_body })
    }
}

/// A message of a backend in raw form, which can be turned into the actual
/// message.
#[derive(Debug)]
pub struct RawBackendMessage {
    pub header: MessageHeader,
    pub raw_body: Bytes,
}

impl RawBackendMessage {
    /// Pulls one frame off the front of `buffer`: the kind byte, four bytes
    /// of length, then the body.
    pub fn get(buffer: &mut Bytes) -> (r: Result<Self, Error>)
        ensures
            match frame_decoding(remaining(*old(buffer))).outcome {
                Ok((header, body)) => r is Ok && r->Ok_0.header.value() == header && remaining(
                    r->Ok_0.raw_body,
                ) == body,
                Err(e) => r is Err && r->Err_0 == e,
            },
            remaining(*final(buffer)) == remaining(*old(buffer)).skip(
                frame_decoding(remaining(*old(buffer))).consumed,
            ),
            r is Ok ==> r->Ok_0.header.length == 4 + remaining(r->Ok_0.raw_body).len(),
    {
        let ghost s = remaining(*buffer);
        proof {
            MessageHeader::lemma_consumed_in_bounds(s);
        }
        let header = MessageHeader::deserialize(buffer)?;
        let raw_body = get_body(buffer, Ghost(s), Ghost(5), header.length)?;
        Ok(Self { header, raw_body })
    }

    /// The kind of the message, if its kind byte stands for one.
    pub fn get_message_kind(&self) -> (kind: Option<BackendMessageKind>)
        ensures
            kind == BackendMessageKind::of_code(self.header.message_type),
    {
        match BackendMessageKind::try_from(self.header.message_type) {
            Ok(kind) => Some(kind),
            Err(_) => None,
        }
    }

    /// The kind of authentication message that the frame holds: the one that
    /// the first four bytes of its body stand for. None if the frame is no
    /// authentication message, or holds no such code.
    pub fn get_auth_message_kind(&self) -> (kind: Option<AuthenticationMessageKind>)
        ensures
            kind == auth_kind_of(self.header.message_type, remaining(self.raw_body)),
    {
        if let Some(BackendMessageKind::Authentication) = self.get_message_kind() {
            let mut peek = share(&self.raw_body);
            match try_get_i32(&mut peek) {
                Ok(msg_kind) => match AuthenticationMessageKind::try_from(msg_kind) {
                    Ok(kind) => Some(kind),
                    Err(_) => None,
                },
                Err(_) => None,
            }
        } else {
            None
        }
    }
}

/// The kind of authentication message that a frame with the kind byte
/// `message_type` and the body `body` holds, if any.
pub open spec fn auth_kind_of(message_type: u8, body: Seq<u8>) -> Option<
    AuthenticationMessageKind,
> {
    if BackendMessageKind::of_code(message_type) == Some(BackendMessageKind::Authentication)
        && body.len() >= 4 {
        AuthenticationMessageKind::of_code(i32_of_be(body[0], body[1], body[2], body[3]))
    } else {
        None
    }
}

/// A message of a frontend in raw form, which can be turned into the actual
/// message.
#[derive(Debug)]
pub struct RawFrontendMessage {
    pub header: MessageHeader,
    pub raw_body: Bytes,
}

impl RawFrontendMessage {
    /// Pulls one frame off the front of `buffer`: the kind byte, four bytes
    /// of length, then the body.
    pub fn get(buffer: &mut Bytes) -> (r: Result<Self, Error>)
        ensures
            match frame_decoding(remaining(*old(buffer))).outcome {
                Ok((header, body)) => r is Ok && r->Ok_0.header.value() == header && remaining(
                    r->Ok_0.raw_body,
                ) == body,
                Err(e) => r is Err && r->Err_0 == e,
            },
            remaining(*final(buffer)) == remaining(*old(buffer)).skip(
                frame_decoding(remaining(*old(buffer))).consumed,
            ),
            r is Ok ==> r->Ok_0.header.length == 4 + remaining(r->Ok_0.raw_body).len(),
    {
        let ghost s = remaining(*buffer);
        proof {
            MessageHeader::lemma_consumed_in_bounds(s);
        }
        let header = MessageHeader::deserialize(buffer)?;
        let raw_body = get_body(buffer, Ghost(s), Ghost(5), header.length)?;
        Ok(Self { header, raw_body })
    }

    /// The kind of the message, if its kind byte stands for one kind only.
    pub fn get_message_kind(&self) -> (kind: Option<FrontendMessageKind>)
        ensures
            kind == FrontendMessageKind::of_code(self.header.message_type),
    {
        match FrontendMessageKind::try_from(self.header.message_type) {
            Ok(kind) => Some(kind),
            Err(_) => None,
        }
    }
}

/// The error with which the reading of a typed message from a frame ends
/// where the reading of the body ends with `e`: a body that is too short is
/// malformed, since the frame was whole.
pub open spec fn body_error(e: Error) -> Error {
    match e {
        Error::BufferUnderflow => Error::Malformed(Flaw::TruncatedBody),
        _ => e,
    }
}

/// What reading a message of the type `T` from the body of a frame gives.
pub open spec fn message_decoding<T: Wire>(body: Seq<u8>) -> Decoded<T::Value> {
    let plain = T::decoding(body);
    Decoded {
        outcome: match plain.outcome {
            Ok(v) => Ok(v),
            Err(e) => Err(body_error(e)),
        },
        consumed: plain.consumed,
    }
}

/// What projecting a frame onto the message type `T` gives: the frame must
/// be of the kind of `T`, and its body must hold one message of that type.
pub open spec fn typed_decoding<T: Wire + MessageBody>(message_type: u8, body: Seq<u8>) -> Decoded<
    T::Value,
> {
    if message_type == T::kind() {
        message_decoding::<T>(body)
    } else {
        failed(Error::UnexpectedMessage, 0)
    }
}

/// What projecting a frame onto the authentication message type `T` gives:
/// the frame must be an authentication message of the kind `kind`, and its
/// body must hold one message of that type.
pub open spec fn auth_decoding<T: Wire>(
    kind: AuthenticationMessageKind,
    message_type: u8,
    body: Seq<u8>,
) -> Decoded<T::Value> {
    if auth_kind_of(message_type, body) == Some(kind) {
        message_decoding::<T>(body)
    } else {
        failed(Error::UnexpectedMessage, 0)
    }
}

/// Whether `r` and `after` are what reading `expected` from the frame with
/// the header `header` and the body `before` comes to: the outcome is the
/// one expected, and the bytes that the reading used up are gone from the
/// body.
pub open spec fn projects<T: Wire>(
    expected: Decoded<T::Value>,
    before: Seq<u8>,
    after: Seq<u8>,
    r: Result<T, Error>,
) -> bool {
    &&& match expected.outcome {
        Ok(v) => r is Ok && r->Ok_0.value() == v,
        Err(e) => r is Err && r->Err_0 == e,
    }
    &&& after == before.skip(expected.consumed)
}

/// Reads one message of the type `T` from the body of a frame.
pub fn deserialize_body<T: Deserialize>(raw_body: &mut Bytes) -> (r: Result<T, Error>)
    ensures
        projects::<T>(
            message_decoding::<T>(remaining(*old(raw_body))),
            remaining(*old(raw_body)),
            remaining(*final(raw_body)),
            r,
        ),
{
    match T::deserialize(raw_body) {
        Ok(message) => Ok(message),
        Err(Error::BufferUnderflow) => Err(Error::Malformed(Flaw::TruncatedBody)),
        Err(e) => Err(e),
    }
}

} // verus!
