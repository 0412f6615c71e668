//! What a backend reads from a frontend, with the texts of the messages as
//! `String`s: the startup message, the password and the query.
//!
//! Each message is parsed from the bytes of one frame. Texts are read as in
//! [`crate::strings`]: a byte becomes the character with the same number.

use crate::buffer::{remaining, try_get_u8};
use crate::error::Error;
use crate::libpq_types::cstring::lemma_first_nul_in_bounds;
use crate::libpq_types::CString;
use crate::message::header::RequestHeader;
use crate::message::raw::{body_decoding, get_body};
use crate::record::lemma_skip_twice;
use crate::strings::{text_from, text_of};
use crate::wire::{failed, read, Decoded, Deserialize, Wire};
use bytes::Bytes;
use vstd::prelude::*;

verus! {

/// A message of a frontend.
#[derive(Debug)]
pub enum FrontendMessage {
    StartupMessage {
        /// The length of the request, which counts its own four bytes.
        length: i32,
        /// The version of the protocol, major and minor.
        protocol_version: (i16, i16),
        /// The parameters of the session, each a name and a value, in the
        /// order in which they were sent.
        parameters: Vec<(String, String)>,
    },
    PasswordMessage {
        /// The kind byte of the frame: `p`.
        kind: char,
        /// The length of the message, which counts its own four bytes.
        length: i32,
        password: String,
    },
    Query {
        /// The kind byte of the frame: `Q`.
        kind: char,
        /// The length of the message, which counts its own four bytes.
        length: i32,
        query: String,
    },
}

/// A message of a frontend, as the contracts see it.
pub enum FrontendMessageView {
    StartupMessage {
        length: i32,
        protocol_version: (i16, i16),
        parameters: Seq<(Seq<char>, Seq<char>)>,
    },
    PasswordMessage { kind: char, length: i32, password: Seq<char> },
    Query { kind: char, length: i32, query: Seq<char> },
}

/// The pairs of texts that the pairs of `String`s `pairs` hold.
pub open spec fn pairs_of(pairs: Seq<(String, String)>) -> Seq<(Seq<char>, Seq<char>)> {
    Seq::new(pairs.len(), |i: int| (pairs[i].0@, pairs[i].1@))
}

impl View for FrontendMessage {
    type V = FrontendMessageView;

    open spec fn view(&self) -> FrontendMessageView {
        match self {
            FrontendMessage::StartupMessage {
                length,
                protocol_version,
                parameters,
            } => FrontendMessageView::StartupMessage {
                length: *length,
                protocol_version: *protocol_version,
                parameters: pairs_of(parameters@),
            },
            FrontendMessage::PasswordMessage {
                kind,
                length,
                password,
            } => FrontendMessageView::PasswordMessage {
                kind: *kind,
                length: *length,
                password: password@,
            },
            FrontendMessage::Query { kind, length, query } => FrontendMessageView::Query {
                kind: *kind,
                length: *length,
                query: query@,
            },
        }
    }
}

/// The reading `rest` of pairs, made behind the pair `pair` that took
/// `consumed` bytes.
pub open spec fn pair_then(
    pair: (Seq<char>, Seq<char>),
    consumed: int,
    rest: Decoded<Seq<(Seq<char>, Seq<char>)>>,
) -> Decoded<Seq<(Seq<char>, Seq<char>)>> {
    Decoded {
        outcome: match rest.outcome {
            Ok(more) => Ok(seq![pair] + more),
            Err(e) => Err(e),
        },
        consumed: consumed + rest.consumed,
    }
}

/// What reading the parameters of a startup message off the front of `s`
/// gives: pairs of a name and a value, up to the end of `s` or to a name
/// that is empty.
pub open spec fn parameters_parsing(s: Seq<u8>) -> Decoded<Seq<(Seq<char>, Seq<char>)>>
    decreases s.len(),
{
    if s.len() == 0 {
        read(Seq::empty(), 0)
    } else {
        let name = CString::decoding(s);
        match name.outcome {
            Err(e) => failed(e, name.consumed),
            Ok(n) => if n.len() == 0 {
                read(Seq::empty(), name.consumed)
            } else {
                let value = CString::decoding(s.skip(name.consumed));
                match value.outcome {
                    Err(e) => failed(e, name.consumed + value.consumed),
                    Ok(v) => {
                        proof {
                            lemma_first_nul_in_bounds(s);
                            lemma_first_nul_in_bounds(s.skip(name.consumed));
                        }
                        pair_then(
                            (text_of(n), text_of(v)),
                            name.consumed + value.consumed,
                            parameters_parsing(s.skip(name.consumed + value.consumed)),
                        )
                    },
                }
            },
        }
    }
}

/// What parsing a startup message from the body `body` of a request with
/// the length `length` gives.
pub open spec fn startup_body_parsing(length: i32, body: Seq<u8>) -> Result<
    FrontendMessageView,
    Error,
> {
    let version = <(i16, i16)>::decoding(body);
    match version.outcome {
        Err(e) => Err(e),
        Ok(protocol_version) => match parameters_parsing(body.skip(4)).outcome {
            Err(e) => Err(e),
            Ok(parameters) => Ok(
                FrontendMessageView::StartupMessage { length, protocol_version, parameters },
            ),
        },
    }
}

/// What parsing a startup message off the front of `s` gives: four bytes of
/// length, then the body, which holds the version of the protocol and the
/// parameters. A body that was pulled off is used up, also where it cannot
/// be parsed.
pub open spec fn startup_parsing(s: Seq<u8>) -> Decoded<FrontendMessageView> {
    let header = RequestHeader::decoding(s);
    match header.outcome {
        Err(e) => failed(e, header.consumed),
        Ok(length) => {
            let body = body_decoding(s, header.consumed, length);
            match body.outcome {
                Err(e) => failed(e, body.consumed),
                Ok(b) => Decoded {
                    outcome: startup_body_parsing(length, b),
                    consumed: body.consumed,
                },
            }
        },
    }
}

/// What parsing a message that is one text off the front of `s` gives, where
/// the frame must have the kind byte `kind`: the length and the text. The
/// kind byte is looked at before anything else is read.
pub open spec fn text_parsing(s: Seq<u8>, kind: u8) -> Decoded<(i32, Seq<char>)> {
    if s.len() == 0 {
        failed(Error::BufferUnderflow, 0)
    } else if s[0] != kind {
        failed(Error::UnexpectedMessage, 1)
    } else {
        let header = RequestHeader::decoding(s.skip(1));
        match header.outcome {
            Err(e) => failed(e, 1 + header.consumed),
            Ok(length) => {
                let body = body_decoding(s, 1 + header.consumed, length);
                match body.outcome {
                    Err(e) => failed(e, body.consumed),
                    Ok(b) => Decoded {
                        outcome: match CString::decoding(b).outcome {
                            Ok(text) => Ok((length, text_of(text))),
                            Err(e) => Err(e),
                        },
                        consumed: body.consumed,
                    },
                }
            },
        }
    }
}

/// Reads the parameters of a startup message from `body`.
fn parse_parameters(body: &mut Bytes) -> (r: Result<Vec<(String, String)>, Error>)
    ensures
        match parameters_parsing(remaining(*old(body))).outcome {
            Ok(parameters) => r is Ok && pairs_of(r->Ok_0@) == parameters,
            Err(e) => r == Err::<Vec<(String, String)>, Error>(e),
        },
{
    let ghost s = remaining(*body);
    let ghost mut used: int = 0;
    let mut parameters: Vec<(String, String)> = Vec::new();
    assert(s.skip(0) =~= s);
    loop
        invariant
            0 <= used <= s.len(),
            remaining(*body) == s.skip(used),
            match parameters_parsing(s.skip(used)).outcome {
                Ok(more) => parameters_parsing(s).outcome == Ok::<
                    Seq<(Seq<char>, Seq<char>)>,
                    Error,
                >(pairs_of(parameters@) + more),
                Err(e) => parameters_parsing(s).outcome == Err::<
                    Seq<(Seq<char>, Seq<char>)>,
                    Error,
                >(e),
            },
            s == remaining(*old(body)),
        decreases s.len() - used,
    {
        let ghost before = s.skip(used);
        let ghost found = pairs_of(parameters@);
        if crate::buffer::remaining_len(body) == 0 {
            assert(found + Seq::<(Seq<char>, Seq<char>)>::empty() =~= found);
            return Ok(parameters);
        }
        proof {
            lemma_first_nul_in_bounds(before);
            lemma_first_nul_in_bounds(before.skip(CString::decoding(before).consumed));
            lemma_skip_twice::<CString, CString>(before);
        }
        let parm = CString::deserialize(body)?;
        if parm.count_bytes() == 0 {
            assert(found + Seq::<(Seq<char>, Seq<char>)>::empty() =~= found);
            return Ok(parameters);
        }
        let value = CString::deserialize(body)?;
        let ghost step = CString::decoding(before).consumed + CString::decoding(
            before.skip(CString::decoding(before).consumed),
        ).consumed;
        let pair = (text_from(parm.as_bytes()), text_from(value.as_bytes()));
        parameters.push(pair);
        proof {
            assert(before.skip(step) =~= s.skip(used + step));
            let rest = parameters_parsing(s.skip(used + step));
            assert(pairs_of(parameters@) =~= found + seq![(pair.0@, pair.1@)]);
            if rest.outcome is Ok {
                assert(found + (seq![(pair.0@, pair.1@)] + rest.outcome->Ok_0) =~= (found
                    + seq![(pair.0@, pair.1@)]) + rest.outcome->Ok_0);
            }
            used = used + step;
        }
    }
}

/// Parses a message that is one text, in a frame with the kind byte `kind`.
fn parse_text(buffer: &mut Bytes, kind: u8) -> (r: Result<(i32, String), Error>)
    ensures
        match text_parsing(remaining(*old(buffer)), kind).outcome {
            Ok((length, text)) => r is Ok && r->Ok_0.0 == length && r->Ok_0.1@ == text,
            Err(e) => r is Err && r->Err_0 == e,
        },
        remaining(*final(buffer)) == remaining(*old(buffer)).skip(
            text_parsing(remaining(*old(buffer)), kind).consumed,
        ),
{
    let ghost s = remaining(*buffer);
    let found = match try_get_u8(buffer) {
        Ok(found) => found,
        Err(_) => {
            assert(s.skip(0) =~= s);
            return Err(Error::BufferUnderflow);
        },
    };
    if found != kind {
        return Err(Error::UnexpectedMessage);
    }
    proof {
        RequestHeader::lemma_consumed_in_bounds(s.skip(1));
        assert(s.skip(1).skip(RequestHeader::decoding(s.skip(1)).consumed) =~= s.skip(
            1 + RequestHeader::decoding(s.skip(1)).consumed,
        ));
    }
    let header = RequestHeader::deserialize(buffer)?;
    let mut body = get_body(buffer, Ghost(s), Ghost(5), header.length)?;
    let text = CString::deserialize(&mut body)?;
    Ok((header.length, text_from(text.as_bytes())))
}

impl FrontendMessage {
    /// Parses a startup message from the front of `buffer`.
    pub fn parse_startup_message(buffer: &mut Bytes) -> (r: Result<Self, Error>)
        ensures
            match startup_parsing(remaining(*old(buffer))).outcome {
                Ok(message) => r is Ok && r->Ok_0@ == message,
                Err(e) => r is Err && r->Err_0 == e,
            },
            remaining(*final(buffer)) == remaining(*old(buffer)).skip(
                startup_parsing(remaining(*old(buffer))).consumed,
            ),
    {
        let ghost s = remaining(*buffer);
        proof {
            RequestHeader::lemma_consumed_in_bounds(s);
        }
        let header = RequestHeader::deserialize(buffer)?;
        let mut body = get_body(buffer, Ghost(s), Ghost(4), header.length)?;
        let ghost b = remaining(body);
        proof {
            lemma_skip_twice::<i16, i16>(b);
        }
        let major = i16::deserialize(&mut body)?;
        let minor = i16::deserialize(&mut body)?;
        let parameters = parse_parameters(&mut body)?;
        Ok(
            FrontendMessage::StartupMessage {
                length: header.length,
                protocol_version: (major, minor),
                parameters,
            },
        )
    }

    /// Parses a password message from the front of `buffer`.
    pub fn parse_password_message(buffer: &mut Bytes) -> (r: Result<Self, Error>)
        ensures
            match text_parsing(remaining(*old(buffer)), 0x70).outcome {
                Ok((length, password)) => r is Ok && r->Ok_0@
                    == (FrontendMessageView::PasswordMessage { kind: 'p', length, password }),
                Err(e) => r is Err && r->Err_0 == e,
            },
            remaining(*final(buffer)) == remaining(*old(buffer)).skip(
                text_parsing(remaining(*old(buffer)), 0x70).consumed,
            ),
    {
        let (length, password) = parse_text(buffer, 0x70)?;
        Ok(FrontendMessage::PasswordMessage { kind: 'p', length, password })
    }

    /// Parses a query from the front of `buffer`.
    pub fn parse_query(buffer: &mut Bytes) -> (r: Result<Self, Error>)
        ensures
            match text_parsing(remaining(*old(buffer)), 0x51).outcome {
                Ok((length, query)) => r is Ok && r->Ok_0@ == (FrontendMessageView::Query {
                    kind: 'Q',
                    length,
                    query,
                }),
                Err(e) => r is Err && r->Err_0 == e,
            },
            remaining(*final(buffer)) == remaining(*old(buffer)).skip(
                text_parsing(remaining(*old(buffer)), 0x51).consumed,
            ),
    {
        let (length, query) = parse_text(buffer, 0x51)?;
        Ok(FrontendMessage::Query { kind: 'Q', length, query })
    }
}

} // verus!
