//! The two connection protocols, and the frames that they send.
//!
//! Neither protocol touches a transport. Each is a state machine that is
//! handed what was read from the connection, or what the embedding program
//! decided, and says what to write and what to do next. The worker that
//! owns the connection reads, writes and flushes.

pub mod client;
pub mod server;

use crate::buffer::{be_i32, put_i32, written, written_len};
use crate::error::{Error, Flaw};
use crate::message::header::{MessageBody, MessageHeader, RequestBody};
use crate::message::raw::{frame_decoding, typed_decoding};
use crate::wire::{lemma_decode_encode, read, ByteSized, Serialize, Wire};
use crate::libpq_types::CString;
use bytes::BytesMut;
use vstd::pervasive::unreached;
use vstd::prelude::*;
use vstd::utf8::{encode_utf8, is_ascii_chars, is_ascii_chars_encode_utf8};

verus! {

/// The frame of a message with the kind byte `kind` and the body `body`: the
/// kind byte, the length of the rest, which counts its own four bytes, and
/// the body.
pub open spec fn frame(kind: u8, body: Seq<u8>) -> Seq<u8> {
    seq![kind] + be_i32((body.len() + 4) as i32) + body
}

/// The frame of a request with the body `body`: the length of the request,
/// which counts its own four bytes, and the body.
pub open spec fn request_frame(body: Seq<u8>) -> Seq<u8> {
    be_i32((body.len() + 4) as i32) + body
}

/// The frame of the message of the type `T` that stands for `v`.
pub open spec fn message_frame<T: Wire + MessageBody>(v: T::Value) -> Seq<u8> {
    frame(T::kind(), T::encoding(v))
}

/// Whether a message with a body of `body` bytes can be written in a frame
/// behind `before` bytes: the length field is a signed 32-bit integer that
/// counts its own four bytes, and a buffer holds `isize::MAX` bytes at most.
pub open spec fn message_fits(before: nat, body: nat) -> bool {
    &&& body + 4 <= i32::MAX
    &&& before + 5 + body <= isize::MAX
}

/// Whether a request with a body of `body` bytes can be written in a frame
/// behind `before` bytes. The frame of a request is one byte shorter than
/// that of a message, for it has no kind byte.
pub open spec fn request_fits(before: nat, body: nat) -> bool {
    &&& body + 4 <= i32::MAX
    &&& before + 4 + body <= isize::MAX
}

/// The number of bytes that can still be written behind `before` bytes.
fn room(before: usize) -> (left: usize)
    ensures
        left == (if before <= isize::MAX {
            isize::MAX - before
        } else {
            0
        }),
{
    let limit = isize::MAX as usize;
    if before <= limit {
        limit - before
    } else {
        0
    }
}

/// Appends to `buffer` the frame of `msg`: its kind byte, its length and its
/// body. Where the frame does not fit, nothing is written.
pub fn put_message<U>(buffer: &mut BytesMut, msg: &U) -> (r: Result<(), Error>) where
    U: MessageBody + Serialize + ByteSized,

    ensures
        match r {
            Ok(()) => message_fits(written(*old(buffer)).len(), U::encoding(msg.value()).len())
                && written(*final(buffer)) == written(*old(buffer)) + message_frame::<U>(
                msg.value(),
            ),
            Err(e) => !message_fits(written(*old(buffer)).len(), U::encoding(msg.value()).len())
                && e == Error::Malformed(Flaw::TooLarge) && written(*final(buffer)) == written(
                *old(buffer),
            ),
        },
{
    let size = match msg.checked_byte_size() {
        Some(size) => size,
        None => {
            return Err(Error::Malformed(Flaw::TooLarge));
        },
    };
    if size > i32::MAX - 4 {
        return Err(Error::Malformed(Flaw::TooLarge));
    }
    let left = room(written_len(buffer));
    if left < 5 || left - 5 < size as usize {
        return Err(Error::Malformed(Flaw::TooLarge));
    }
    MessageHeader::new_raw_header_from_body(buffer, msg);
    msg.serialize(buffer);
    assert(written(*buffer) =~= written(*old(buffer)) + message_frame::<U>(msg.value()));
    Ok(())
}

/// Appends to `buffer` the frame of the request `msg`: its length and its
/// body. Where the frame does not fit, nothing is written.
pub fn put_request<U>(buffer: &mut BytesMut, msg: &U) -> (r: Result<(), Error>) where
    U: RequestBody + Serialize + ByteSized,

    ensures
        match r {
            Ok(()) => request_fits(written(*old(buffer)).len(), U::encoding(msg.value()).len())
                && written(*final(buffer)) == written(*old(buffer)) + request_frame(
                U::encoding(msg.value()),
            ),
            Err(e) => !request_fits(written(*old(buffer)).len(), U::encoding(msg.value()).len())
                && e == Error::Malformed(Flaw::TooLarge) && written(*final(buffer)) == written(
                *old(buffer),
            ),
        },
{
    let size = match msg.checked_byte_size() {
        Some(size) => size,
        None => {
            return Err(Error::Malformed(Flaw::TooLarge));
        },
    };
    if size > i32::MAX - 4 {
        return Err(Error::Malformed(Flaw::TooLarge));
    }
    let left = room(written_len(buffer));
    if left < 4 || left - 4 < size as usize {
        return Err(Error::Malformed(Flaw::TooLarge));
    }
    put_i32(buffer, size + 4);
    msg.serialize(buffer);
    assert(written(*buffer) =~= written(*old(buffer)) + request_frame(U::encoding(msg.value())));
    Ok(())
}

/// Pulling a frame off the bytes of a frame gives the kind byte and the body
/// back, with a length that is four more than that of the body, and leaves
/// what follows the frame.
pub proof fn lemma_frame_round_trip(kind: u8, body: Seq<u8>, rest: Seq<u8>)
    requires
        body.len() + 4 <= i32::MAX,
    ensures
        frame_decoding(frame(kind, body) + rest) == read(
            ((kind, (body.len() + 4) as i32), body),
            body.len() as int + 5,
        ),
        frame(kind, body).len() == body.len() + 5,
        (frame(kind, body) + rest).skip(body.len() as int + 5) == rest,
{
    let s = frame(kind, body) + rest;
    let length = (body.len() + 4) as i32;
    assert(s =~= MessageHeader::encoding((kind, length)) + (body + rest));
    MessageHeader::lemma_round_trip((kind, length), body + rest);
    assert(s.skip(5) =~= body + rest);
    assert((body + rest).take(body.len() as int) =~= body);
    assert(s.skip(body.len() as int + 5) =~= rest);
}

/// Pulling a frame off the frame of a well-formed value gives its kind byte
/// and its body back and leaves what follows the frame, and projecting that
/// frame onto the type of the value gives the value back and uses up the
/// body.
pub proof fn lemma_message_round_trip<T: Wire + MessageBody>(v: T::Value, rest: Seq<u8>)
    requires
        T::well_formed(v),
        T::encoding(v).len() + 4 <= i32::MAX,
    ensures
        frame_decoding(message_frame::<T>(v) + rest) == read(
            ((T::kind(), (T::encoding(v).len() + 4) as i32), T::encoding(v)),
            T::encoding(v).len() as int + 5,
        ),
        typed_decoding::<T>(T::kind(), T::encoding(v)) == read(v, T::encoding(v).len() as int),
{
    lemma_frame_round_trip(T::kind(), T::encoding(v), rest);
    lemma_decode_encode::<T>(v);
}

/// The kind bytes of the frames that `s` is made of, in order; none where
/// `s` is not made of whole frames.
pub open spec fn frame_kinds(s: Seq<u8>) -> Option<Seq<u8>>
    decreases s.len(),
{
    if s.len() == 0 {
        Some(Seq::empty())
    } else {
        let first = frame_decoding(s);
        match first.outcome {
            Err(_) => None,
            Ok((header, _)) => if 0 < first.consumed <= s.len() {
                match frame_kinds(s.skip(first.consumed)) {
                    None => None,
                    Some(kinds) => Some(seq![header.0] + kinds),
                }
            } else {
                None
            },
        }
    }
}

/// The kind bytes `kinds`, with those of `more` behind them where there are
/// any.
pub open spec fn kinds_then(kinds: Seq<u8>, more: Option<Seq<u8>>) -> Option<Seq<u8>> {
    match more {
        None => None,
        Some(others) => Some(kinds + others),
    }
}

/// Bytes that start with a frame are made of that frame and of the frames
/// that follow it.
pub proof fn lemma_frame_kinds_step(kind: u8, body: Seq<u8>, rest: Seq<u8>)
    requires
        body.len() + 4 <= i32::MAX,
    ensures
        frame_kinds(frame(kind, body) + rest) == kinds_then(seq![kind], frame_kinds(rest)),
{
    let s = frame(kind, body) + rest;
    lemma_frame_round_trip(kind, body, rest);
    let first = frame_decoding(s);
    assert(s.len() == body.len() + 5 + rest.len());
    assert(first.consumed == body.len() + 5);
    assert(s.skip(first.consumed) == rest);
}

/// The string that holds the text `text`, which is made of ASCII characters
/// other than NUL.
pub(crate) fn fixed_text(text: &'static str) -> (string: CString)
    requires
        is_ascii_chars(text@),
        forall|i: int| 0 <= i < text@.len() ==> text@[i] != '\0',
    ensures
        string@ == encode_utf8(text@),
        string@.len() == text@.len(),
{
    proof {
        is_ascii_chars_encode_utf8(text@);
    }
    match CString::new(text) {
        Ok(string) => string,
        Err(_) => unreached(),
    }
}

/// The name of the parameter of a startup message that tells the user.
pub open spec fn user_name() -> Seq<u8> {
    encode_utf8("user"@)
}

/// Whether `name` is the name of the parameter that tells the user.
pub(crate) fn is_user_name(name: &[u8]) -> (b: bool)
    ensures
        b == (name@ == user_name()),
{
    proof {
        reveal_strlit("user");
        is_ascii_chars_encode_utf8("user"@);
        assert(user_name() =~= seq![0x75u8, 0x73u8, 0x65u8, 0x72u8]);
    }
    let b = name.len() == 4 && name[0] == 0x75 && name[1] == 0x73 && name[2] == 0x65 && name[3]
        == 0x72;
    assert(b ==> name@ =~= user_name());
    b
}

} // verus!
