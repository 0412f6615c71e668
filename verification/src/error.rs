//! The errors of the codec and of the connection state machines.

use vstd::prelude::*;

verus! {

/// What is wrong with bytes that break an invariant of the wire format.
#[derive(Debug, Clone, Copy, PartialEq, Eq, Structural)]
pub enum Flaw {
    /// The last byte of a null-terminated array is not zero.
    IncorrectTerminator,
    /// A null-terminated array ends without a terminator byte.
    MissingTerminator,
    /// An element of a null-terminated array takes up no bytes.
    EmptyElement,
    /// A string holds a zero byte before its end.
    InteriorNul,
    /// The length field of a frame is less than its own four bytes.
    LengthTooSmall,
    /// A message does not fit in a frame, whose length is a signed 32-bit integer.
    TooLarge,
    /// The body of a frame ends before the message does.
    TruncatedBody,
    /// A startup message does not name the user.
    MissingUser,
}

/// Why a decoding, or a step of a connection, failed.
#[derive(Debug, Clone, Copy, PartialEq, Eq, Structural)]
pub enum Error {
    /// The bytes end before the value does.
    BufferUnderflow,
    /// The bytes break an invariant of the wire format.
    Malformed(Flaw),
    /// A code is not part of the taxonomy it was looked up in.
    UnsupportedKind,
    /// A frame is not of the kind that was asked for.
    UnexpectedMessage,
    /// The server turned the credentials down.
    AuthFailed,
    /// The transport failed.
    Io,
}

impl Flaw {
    /// A short text that says what is wrong.
    pub fn message(&self) -> (text: &'static str)
        ensures
            text@ == self.diagnostic(),
    {
        match self {
            Flaw::IncorrectTerminator => "incorrect terminator in null-terminated array",
            Flaw::MissingTerminator => "missing null terminator in null-terminated array",
            Flaw::EmptyElement => "element of a null-terminated array is empty",
            Flaw::InteriorNul => "zero byte inside a string",
            Flaw::LengthTooSmall => "frame length is less than four",
            Flaw::TooLarge => "message does not fit in a frame",
            Flaw::TruncatedBody => "frame body ends before the message does",
            Flaw::MissingUser => "startup message names no user",
        }
    }

    /// The text of [`Flaw::message`].
    pub open spec fn diagnostic(&self) -> Seq<char> {
        match self {
            Flaw::IncorrectTerminator => "incorrect terminator in null-terminated array"@,
            Flaw::MissingTerminator => "missing null terminator in null-terminated array"@,
            Flaw::EmptyElement => "element of a null-terminated array is empty"@,
            Flaw::InteriorNul => "zero byte inside a string"@,
            Flaw::LengthTooSmall => "frame length is less than four"@,
            Flaw::TooLarge => "message does not fit in a frame"@,
            Flaw::TruncatedBody => "frame body ends before the message does"@,
            Flaw::MissingUser => "startup message names no user"@,
        }
    }
}

impl Error {
    /// A short text that says what went wrong.
    pub fn message(&self) -> (text: &'static str)
        ensures
            text@ == self.diagnostic(),
    {
        match self {
            Error::BufferUnderflow => "not enough bytes",
            Error::Malformed(flaw) => flaw.message(),
            Error::UnsupportedKind => "unsupported code",
            Error::UnexpectedMessage => "unexpected message",
            Error::AuthFailed => "authentication failed",
            Error::Io => "transport failed",
        }
    }

    /// The text of [`Error::message`].
    pub open spec fn diagnostic(&self) -> Seq<char> {
        match self {
            Error::BufferUnderflow => "not enough bytes"@,
            Error::Malformed(flaw) => flaw.diagnostic(),
            Error::UnsupportedKind => "unsupported code"@,
            Error::UnexpectedMessage => "unexpected message"@,
            Error::AuthFailed => "authentication failed"@,
            Error::Io => "transport failed"@,
        }
    }
}

} // verus!
