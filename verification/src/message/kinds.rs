//! The kinds of messages and the codes that stand for them on the wire.
//!
//! From a kind to its code the mapping is total. From a code to a kind it is
//! partial, and a code without a kind is refused as `UnsupportedKind`.

use crate::error::Error;
use vstd::prelude::*;
use vstd::std_specs::convert::{FromSpecImpl, TryFromSpecImpl};

verus! {

/// All the requests that a frontend sends before a connection is set up.
#[derive(Debug, Clone, Copy, PartialEq, Eq, Structural)]
pub enum RequestMessageKind {
    StartupMessage,
    CancelRequest,
    GSSENCRequest,
    SSLRequest,
}

impl RequestMessageKind {
    /// The request code of the kind.
    pub open spec fn code(self) -> i32 {
        match self {
            RequestMessageKind::StartupMessage => 196608,
            RequestMessageKind::CancelRequest => 80877102,
            RequestMessageKind::GSSENCRequest => 80877104,
            RequestMessageKind::SSLRequest => 80877103,
        }
    }

    /// The kind that a request code stands for, if any.
    pub open spec fn of_code(code: i32) -> Option<RequestMessageKind> {
        if code == 196608 {
            Some(RequestMessageKind::StartupMessage)
        } else if code == 80877102 {
            Some(RequestMessageKind::CancelRequest)
        } else if code == 80877104 {
            Some(RequestMessageKind::GSSENCRequest)
        } else if code == 80877103 {
            Some(RequestMessageKind::SSLRequest)
        } else {
            None
        }
    }

    /// The code of a kind stands for that kind, and a kind is found only
    /// under its own code.
    pub proof fn lemma_code_round_trip(kind: RequestMessageKind, code: i32)
        ensures
            Self::of_code(kind.code()) == Some(kind),
            Self::of_code(code) == Some(kind) ==> kind.code() == code,
    {
    }
}

impl From<&RequestMessageKind> for i32 {
    fn from(msg_kind: &RequestMessageKind) -> (code: i32) {
        match msg_kind {
            RequestMessageKind::StartupMessage => 196608,
            RequestMessageKind::CancelRequest => 80877102,
            RequestMessageKind::GSSENCRequest => 80877104,
            RequestMessageKind::SSLRequest => 80877103,
        }
    }
}

impl FromSpecImpl<&RequestMessageKind> for i32 {
    open spec fn obeys_from_spec() -> bool {
        true
    }

    open spec fn from_spec(msg_kind: &RequestMessageKind) -> i32 {
        msg_kind.code()
    }
}

impl TryFrom<i32> for RequestMessageKind {
    type Error = Error;

    fn try_from(request_code: i32) -> (r: Result<RequestMessageKind, Error>) {
        match request_code {
            196608 => Ok(RequestMessageKind::StartupMessage),
            80877102 => Ok(RequestMessageKind::CancelRequest),
            80877104 => Ok(RequestMessageKind::GSSENCRequest),
            80877103 => Ok(RequestMessageKind::SSLRequest),
            _ => Err(Error::UnsupportedKind),
        }
    }
}

impl TryFromSpecImpl<i32> for RequestMessageKind {
    open spec fn obeys_try_from_spec() -> bool {
        true
    }

    open spec fn try_from_spec(request_code: i32) -> Result<RequestMessageKind, Error> {
        match RequestMessageKind::of_code(request_code) {
            Some(kind) => Ok(kind),
            None => Err(Error::UnsupportedKind),
        }
    }
}

/// All the messages that a backend sends, each with its kind byte.
#[derive(Debug, Clone, Copy, PartialEq, Eq, Structural)]
pub enum BackendMessageKind {
    /// `R`
    Authentication,
    /// `K`
    BackendKeyData,
    /// `2`
    BindComplete,
    /// `3`
    CloseComplete,
    /// `C`
    CommandComplete,
    /// `d`
    CopyData,
    /// `c`
    CopyDone,
    /// `G`
    CopyInResponse,
    /// `H`
    CopyOutResponse,
    /// `W`
    CopyBothResponse,
    /// `D`
    DataRow,
    /// `I`
    EmptyQuery,
    /// `E`
    ErrorResponse,
    /// `V`
    FunctionCallResponse,
    /// `v`
    NegotiateProtocolVersion,
    /// `n`
    NoData,
    /// `N`
    NoticeResponse,
    /// `A`
    NotificationResponse,
    /// `t`
    ParameterDescription,
    /// `S`
    ParameterStatus,
    /// `1`
    ParseComplete,
    /// `s`
    PortalSuspended,
    /// `Z`
    ReadyForQuery,
    /// `T`
    RowDescription,
}

impl BackendMessageKind {
    /// The code of the kind.
    pub open spec fn code(self) -> u8 {
        match self {
            BackendMessageKind::Authentication => 0x52, // 'R'
            BackendMessageKind::BackendKeyData => 0x4b, // 'K'
            BackendMessageKind::BindComplete => 0x32, // '2'
            BackendMessageKind::CloseComplete => 0x33, // '3'
            BackendMessageKind::CommandComplete => 0x43, // 'C'
            BackendMessageKind::CopyData => 0x64, // 'd'
            BackendMessageKind::CopyDone => 0x63, // 'c'
            BackendMessageKind::CopyInResponse => 0x47, // 'G'
            BackendMessageKind::CopyOutResponse => 0x48, // 'H'
            BackendMessageKind::CopyBothResponse => 0x57, // 'W'
            BackendMessageKind::DataRow => 0x44, // 'D'
            BackendMessageKind::EmptyQuery => 0x49, // 'I'
            BackendMessageKind::ErrorResponse => 0x45, // 'E'
            BackendMessageKind::FunctionCallResponse => 0x56, // 'V'
            BackendMessageKind::NegotiateProtocolVersion => 0x76, // 'v'
            BackendMessageKind::NoData => 0x6e, // 'n'
            BackendMessageKind::NoticeResponse => 0x4e, // 'N'
            BackendMessageKind::NotificationResponse => 0x41, // 'A'
            BackendMessageKind::ParameterDescription => 0x74, // 't'
            BackendMessageKind::ParameterStatus => 0x53, // 'S'
            BackendMessageKind::ParseComplete => 0x31, // '1'
            BackendMessageKind::PortalSuspended => 0x73, // 's'
            BackendMessageKind::ReadyForQuery => 0x5a, // 'Z'
            BackendMessageKind::RowDescription => 0x54, // 'T'
        }
    }

    /// The kind that a code stands for, if any.
    pub open spec fn of_code(code: u8) -> Option<BackendMessageKind> {
        if code == 0x52 { // 'R'
            Some(BackendMessageKind::Authentication)
        } else if code == 0x4b { // 'K'
            Some(BackendMessageKind::BackendKeyData)
        } else if code == 0x32 { // '2'
            Some(BackendMessageKind::BindComplete)
        } else if code == 0x33 { // '3'
            Some(BackendMessageKind::CloseComplete)
        } else if code == 0x43 { // 'C'
            Some(BackendMessageKind::CommandComplete)
        } else if code == 0x64 { // 'd'
            Some(BackendMessageKind::CopyData)
        } else if code == 0x63 { // 'c'
            Some(BackendMessageKind::CopyDone)
        } else if code == 0x47 { // 'G'
            Some(BackendMessageKind::CopyInResponse)
        } else if code == 0x48 { // 'H'
            Some(BackendMessageKind::CopyOutResponse)
        } else if code == 0x57 { // 'W'
            Some(BackendMessageKind::CopyBothResponse)
        } else if code == 0x44 { // 'D'
            Some(BackendMessageKind::DataRow)
        } else if code == 0x49 { // 'I'
            Some(BackendMessageKind::EmptyQuery)
        } else if code == 0x45 { // 'E'
            Some(BackendMessageKind::ErrorResponse)
        } else if code == 0x56 { // 'V'
            Some(BackendMessageKind::FunctionCallResponse)
        } else if code == 0x76 { // 'v'
            Some(BackendMessageKind::NegotiateProtocolVersion)
        } else if code == 0x6e { // 'n'
            Some(BackendMessageKind::NoData)
        } else if code == 0x4e { // 'N'
            Some(BackendMessageKind::NoticeResponse)
        } else if code == 0x41 { // 'A'
            Some(BackendMessageKind::NotificationResponse)
        } else if code == 0x74 { // 't'
            Some(BackendMessageKind::ParameterDescription)
        } else if code == 0x53 { // 'S'
            Some(BackendMessageKind::ParameterStatus)
        } else if code == 0x31 { // '1'
            Some(BackendMessageKind::ParseComplete)
        } else if code == 0x73 { // 's'
            Some(BackendMessageKind::PortalSuspended)
        } else if code == 0x5a { // 'Z'
            Some(BackendMessageKind::ReadyForQuery)
        } else if code == 0x54 { // 'T'
            Some(BackendMessageKind::RowDescription)
        } else {
            None
        }
    }

    /// The code of a kind stands for that kind, and a kind is found only
    /// under its own code.
    pub proof fn lemma_code_round_trip(kind: BackendMessageKind, code: u8)
        ensures
            Self::of_code(kind.code()) == Some(kind),
            Self::of_code(code) == Some(kind) ==> kind.code() == code,
    {
    }
}

impl From<&BackendMessageKind> for u8 {
    fn from(msg_kind: &BackendMessageKind) -> (code: u8) {
        match msg_kind {
            BackendMessageKind::Authentication => 0x52, // 'R'
            BackendMessageKind::BackendKeyData => 0x4b, // 'K'
            BackendMessageKind::BindComplete => 0x32, // '2'
            BackendMessageKind::CloseComplete => 0x33, // '3'
            BackendMessageKind::CommandComplete => 0x43, // 'C'
            BackendMessageKind::CopyData => 0x64, // 'd'
            BackendMessageKind::CopyDone => 0x63, // 'c'
            BackendMessageKind::CopyInResponse => 0x47, // 'G'
            BackendMessageKind::CopyOutResponse => 0x48, // 'H'
            BackendMessageKind::CopyBothResponse => 0x57, // 'W'
            BackendMessageKind::DataRow => 0x44, // 'D'
            BackendMessageKind::EmptyQuery => 0x49, // 'I'
            BackendMessageKind::ErrorResponse => 0x45, // 'E'
            BackendMessageKind::FunctionCallResponse => 0x56, // 'V'
            BackendMessageKind::NegotiateProtocolVersion => 0x76, // 'v'
            BackendMessageKind::NoData => 0x6e, // 'n'
            BackendMessageKind::NoticeResponse => 0x4e, // 'N'
            BackendMessageKind::NotificationResponse => 0x41, // 'A'
            BackendMessageKind::ParameterDescription => 0x74, // 't'
            BackendMessageKind::ParameterStatus => 0x53, // 'S'
            BackendMessageKind::ParseComplete => 0x31, // '1'
            BackendMessageKind::PortalSuspended => 0x73, // 's'
            BackendMessageKind::ReadyForQuery => 0x5a, // 'Z'
            BackendMessageKind::RowDescription => 0x54, // 'T'
        }
    }
}

impl FromSpecImpl<&BackendMessageKind> for u8 {
    open spec fn obeys_from_spec() -> bool {
        true
    }

    open spec fn from_spec(msg_kind: &BackendMessageKind) -> u8 {
        msg_kind.code()
    }
}

impl TryFrom<u8> for BackendMessageKind {
    type Error = Error;

    fn try_from(msg_code: u8) -> (r: Result<BackendMessageKind, Error>) {
        match msg_code {
            0x52 => Ok(BackendMessageKind::Authentication), // 'R'
            0x4b => Ok(BackendMessageKind::BackendKeyData), // 'K'
            0x32 => Ok(BackendMessageKind::BindComplete), // '2'
            0x33 => Ok(BackendMessageKind::CloseComplete), // '3'
            0x43 => Ok(BackendMessageKind::CommandComplete), // 'C'
            0x64 => Ok(BackendMessageKind::CopyData), // 'd'
            0x63 => Ok(BackendMessageKind::CopyDone), // 'c'
            0x47 => Ok(BackendMessageKind::CopyInResponse), // 'G'
            0x48 => Ok(BackendMessageKind::CopyOutResponse), // 'H'
            0x57 => Ok(BackendMessageKind::CopyBothResponse), // 'W'
            0x44 => Ok(BackendMessageKind::DataRow), // 'D'
            0x49 => Ok(BackendMessageKind::EmptyQuery), // 'I'
            0x45 => Ok(BackendMessageKind::ErrorResponse), // 'E'
            0x56 => Ok(BackendMessageKind::FunctionCallResponse), // 'V'
            0x76 => Ok(BackendMessageKind::NegotiateProtocolVersion), // 'v'
            0x6e => Ok(BackendMessageKind::NoData), // 'n'
            0x4e => Ok(BackendMessageKind::NoticeResponse), // 'N'
            0x41 => Ok(BackendMessageKind::NotificationResponse), // 'A'
            0x74 => Ok(BackendMessageKind::ParameterDescription), // 't'
            0x53 => Ok(BackendMessageKind::ParameterStatus), // 'S'
            0x31 => Ok(BackendMessageKind::ParseComplete), // '1'
            0x73 => Ok(BackendMessageKind::PortalSuspended), // 's'
            0x5a => Ok(BackendMessageKind::ReadyForQuery), // 'Z'
            0x54 => Ok(BackendMessageKind::RowDescription), // 'T'
            _ => Err(Error::UnsupportedKind),
        }
    }
}

impl TryFromSpecImpl<u8> for BackendMessageKind {
    open spec fn obeys_try_from_spec() -> bool {
        true
    }

    open spec fn try_from_spec(msg_code: u8) -> Result<BackendMessageKind, Error> {
        match BackendMessageKind::of_code(msg_code) {
            Some(kind) => Ok(kind),
            None => Err(Error::UnsupportedKind),
        }
    }
}

/// The kinds of authentication message, each with the code that follows the
/// envelope.
#[derive(Debug, Clone, Copy, PartialEq, Eq, Structural)]
pub enum AuthenticationMessageKind {
    /// 0
    Success,
    /// 2
    KerberosV5,
    /// 3
    CleartextPassword,
    /// 5
    MD5Password,
    /// 7
    GSS,
    /// 8
    GSSContinue,
    /// 9
    SSPI,
    /// 10
    SASL,
    /// 11
    SASLContinue,
    /// 12
    SASLFinal,
}

impl AuthenticationMessageKind {
    /// The code of the kind.
    pub open spec fn code(self) -> i32 {
        match self {
            AuthenticationMessageKind::Success => 0,
            AuthenticationMessageKind::KerberosV5 => 2,
            AuthenticationMessageKind::CleartextPassword => 3,
            AuthenticationMessageKind::MD5Password => 5,
            AuthenticationMessageKind::GSS => 7,
            AuthenticationMessageKind::GSSContinue => 8,
            AuthenticationMessageKind::SSPI => 9,
            AuthenticationMessageKind::SASL => 10,
            AuthenticationMessageKind::SASLContinue => 11,
            AuthenticationMessageKind::SASLFinal => 12,
        }
    }

    /// The kind that a code stands for, if any.
    pub open spec fn of_code(code: i32) -> Option<AuthenticationMessageKind> {
        if code == 0 {
            Some(AuthenticationMessageKind::Success)
        } else if code == 2 {
            Some(AuthenticationMessageKind::KerberosV5)
        } else if code == 3 {
            Some(AuthenticationMessageKind::CleartextPassword)
        } else if code == 5 {
            Some(AuthenticationMessageKind::MD5Password)
        } else if code == 7 {
            Some(AuthenticationMessageKind::GSS)
        } else if code == 8 {
            Some(AuthenticationMessageKind::GSSContinue)
        } else if code == 9 {
            Some(AuthenticationMessageKind::SSPI)
        } else if code == 10 {
            Some(AuthenticationMessageKind::SASL)
        } else if code == 11 {
            Some(AuthenticationMessageKind::SASLContinue)
        } else if code == 12 {
            Some(AuthenticationMessageKind::SASLFinal)
        } else {
            None
        }
    }

    /// The code of a kind stands for that kind, and a kind is found only
    /// under its own code.
    pub proof fn lemma_code_round_trip(kind: AuthenticationMessageKind, code: i32)
        ensures
            Self::of_code(kind.code()) == Some(kind),
            Self::of_code(code) == Some(kind) ==> kind.code() == code,
    {
    }
}

impl From<&AuthenticationMessageKind> for i32 {
    fn from(msg_kind: &AuthenticationMessageKind) -> (code: i32) {
        match msg_kind {
            AuthenticationMessageKind::Success => 0,
            AuthenticationMessageKind::KerberosV5 => 2,
            AuthenticationMessageKind::CleartextPassword => 3,
            AuthenticationMessageKind::MD5Password => 5,
            AuthenticationMessageKind::GSS => 7,
            AuthenticationMessageKind::GSSContinue => 8,
            AuthenticationMessageKind::SSPI => 9,
            AuthenticationMessageKind::SASL => 10,
            AuthenticationMessageKind::SASLContinue => 11,
            AuthenticationMessageKind::SASLFinal => 12,
        }
    }
}

impl FromSpecImpl<&AuthenticationMessageKind> for i32 {
    open spec fn obeys_from_spec() -> bool {
        true
    }

    open spec fn from_spec(msg_kind: &AuthenticationMessageKind) -> i32 {
        msg_kind.code()
    }
}

impl TryFrom<i32> for AuthenticationMessageKind {
    type Error = Error;

    fn try_from(msg_code: i32) -> (r: Result<AuthenticationMessageKind, Error>) {
        match msg_code {
            0 => Ok(AuthenticationMessageKind::Success),
            2 => Ok(AuthenticationMessageKind::KerberosV5),
            3 => Ok(AuthenticationMessageKind::CleartextPassword),
            5 => Ok(AuthenticationMessageKind::MD5Password),
            7 => Ok(AuthenticationMessageKind::GSS),
            8 => Ok(AuthenticationMessageKind::GSSContinue),
            9 => Ok(AuthenticationMessageKind::SSPI),
            10 => Ok(AuthenticationMessageKind::SASL),
            11 => Ok(AuthenticationMessageKind::SASLContinue),
            12 => Ok(AuthenticationMessageKind::SASLFinal),
            _ => Err(Error::UnsupportedKind),
        }
    }
}

impl TryFromSpecImpl<i32> for AuthenticationMessageKind {
    open spec fn obeys_try_from_spec() -> bool {
        true
    }

    open spec fn try_from_spec(msg_code: i32) -> Result<AuthenticationMessageKind, Error> {
        match AuthenticationMessageKind::of_code(msg_code) {
            Some(kind) => Ok(kind),
            None => Err(Error::UnsupportedKind),
        }
    }
}

/// All the messages that a frontend sends, each with its kind byte. Four of
/// them share the byte `p`: which of them a frame with that byte holds depends
/// on the authentication message that the backend sent last.
#[derive(Debug, Clone, Copy, PartialEq, Eq, Structural)]
pub enum FrontendMessageKind {
    /// `B`
    Bind,
    /// `C`
    Close,
    /// `d`
    CopyData,
    /// `c`
    CopyDone,
    /// `f`
    CopyFail,
    /// `D`
    Describe,
    /// `E`
    Execute,
    /// `H`
    Flush,
    /// `F`
    FunctionCall,
    /// `p`
    GSSResponse,
    /// `P`
    Parse,
    /// `p`
    PasswordMessage,
    /// `Q`
    Query,
    /// `p`
    SASLInitialResponse,
    /// `p`
    SASLResponse,
    /// `X`
    Terminate,
}

impl FrontendMessageKind {
    /// The code of the kind.
    pub open spec fn code(self) -> u8 {
        match self {
            FrontendMessageKind::Bind => 0x42, // 'B'
            FrontendMessageKind::Close => 0x43, // 'C'
            FrontendMessageKind::CopyData => 0x64, // 'd'
            FrontendMessageKind::CopyDone => 0x63, // 'c'
            FrontendMessageKind::CopyFail => 0x66, // 'f'
            FrontendMessageKind::Describe => 0x44, // 'D'
            FrontendMessageKind::Execute => 0x45, // 'E'
            FrontendMessageKind::Flush => 0x48, // 'H'
            FrontendMessageKind::FunctionCall => 0x46, // 'F'
            FrontendMessageKind::GSSResponse => 0x70, // 'p'
            FrontendMessageKind::Parse => 0x50, // 'P'
            FrontendMessageKind::PasswordMessage => 0x70, // 'p'
            FrontendMessageKind::Query => 0x51, // 'Q'
            FrontendMessageKind::SASLInitialResponse => 0x70, // 'p'
            FrontendMessageKind::SASLResponse => 0x70, // 'p'
            FrontendMessageKind::Terminate => 0x58, // 'X'
        }
    }

    /// The kind that a code stands for, if it stands for one kind only.
    pub open spec fn of_code(code: u8) -> Option<FrontendMessageKind> {
        if code == 0x42 { // 'B'
            Some(FrontendMessageKind::Bind)
        } else if code == 0x43 { // 'C'
            Some(FrontendMessageKind::Close)
        } else if code == 0x64 { // 'd'
            Some(FrontendMessageKind::CopyData)
        } else if code == 0x63 { // 'c'
            Some(FrontendMessageKind::CopyDone)
        } else if code == 0x66 { // 'f'
            Some(FrontendMessageKind::CopyFail)
        } else if code == 0x44 { // 'D'
            Some(FrontendMessageKind::Describe)
        } else if code == 0x45 { // 'E'
            Some(FrontendMessageKind::Execute)
        } else if code == 0x48 { // 'H'
            Some(FrontendMessageKind::Flush)
        } else if code == 0x46 { // 'F'
            Some(FrontendMessageKind::FunctionCall)
        } else if code == 0x50 { // 'P'
            Some(FrontendMessageKind::Parse)
        } else if code == 0x51 { // 'Q'
            Some(FrontendMessageKind::Query)
        } else if code == 0x58 { // 'X'
            Some(FrontendMessageKind::Terminate)
        } else {
            None
        }
    }

    /// A kind is found only under its own code, and every kind but the four
    /// that share the code `p` is found under it.
    pub proof fn lemma_code_round_trip(kind: FrontendMessageKind, code: u8)
        ensures
            Self::of_code(code) == Some(kind) ==> kind.code() == code,
            kind.code() != 0x70 ==> Self::of_code(kind.code()) == Some(kind),
            Self::of_code(0x70) is None,
    {
    }
}

impl From<&FrontendMessageKind> for u8 {
    fn from(msg_kind: &FrontendMessageKind) -> (code: u8) {
        match msg_kind {
            FrontendMessageKind::Bind => 0x42, // 'B'
            FrontendMessageKind::Close => 0x43, // 'C'
            FrontendMessageKind::CopyData => 0x64, // 'd'
            FrontendMessageKind::CopyDone => 0x63, // 'c'
            FrontendMessageKind::CopyFail => 0x66, // 'f'
            FrontendMessageKind::Describe => 0x44, // 'D'
            FrontendMessageKind::Execute => 0x45, // 'E'
            FrontendMessageKind::Flush => 0x48, // 'H'
            FrontendMessageKind::FunctionCall => 0x46, // 'F'
            FrontendMessageKind::GSSResponse => 0x70, // 'p'
            FrontendMessageKind::Parse => 0x50, // 'P'
            FrontendMessageKind::PasswordMessage => 0x70, // 'p'
            FrontendMessageKind::Query => 0x51, // 'Q'
            FrontendMessageKind::SASLInitialResponse => 0x70, // 'p'
            FrontendMessageKind::SASLResponse => 0x70, // 'p'
            FrontendMessageKind::Terminate => 0x58, // 'X'
        }
    }
}

impl FromSpecImpl<&FrontendMessageKind> for u8 {
    open spec fn obeys_from_spec() -> bool {
        true
    }

    open spec fn from_spec(msg_kind: &FrontendMessageKind) -> u8 {
        msg_kind.code()
    }
}

impl TryFrom<u8> for FrontendMessageKind {
    type Error = Error;

    fn try_from(msg_code: u8) -> (r: Result<FrontendMessageKind, Error>) {
        match msg_code {
            0x42 => Ok(FrontendMessageKind::Bind), // 'B'
            0x43 => Ok(FrontendMessageKind::Close), // 'C'
            0x64 => Ok(FrontendMessageKind::CopyData), // 'd'
            0x63 => Ok(FrontendMessageKind::CopyDone), // 'c'
            0x66 => Ok(FrontendMessageKind::CopyFail), // 'f'
            0x44 => Ok(FrontendMessageKind::Describe), // 'D'
            0x45 => Ok(FrontendMessageKind::Execute), // 'E'
            0x48 => Ok(FrontendMessageKind::Flush), // 'H'
            0x46 => Ok(FrontendMessageKind::FunctionCall), // 'F'
            0x50 => Ok(FrontendMessageKind::Parse), // 'P'
            0x51 => Ok(FrontendMessageKind::Query), // 'Q'
            0x58 => Ok(FrontendMessageKind::Terminate), // 'X'
            _ => Err(Error::UnsupportedKind),
        }
    }
}

impl TryFromSpecImpl<u8> for FrontendMessageKind {
    open spec fn obeys_try_from_spec() -> bool {
        true
    }

    open spec fn try_from_spec(msg_code: u8) -> Result<FrontendMessageKind, Error> {
        match FrontendMessageKind::of_code(msg_code) {
            Some(kind) => Ok(kind),
            None => Err(Error::UnsupportedKind),
        }
    }
}

} // verus!
