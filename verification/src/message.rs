//! The messages of the protocol: their kinds, the framed envelope that they
//! share, and a typed record for each of them.

pub mod authentication;
pub mod backend;
pub mod frontend;
pub mod header;
pub mod kinds;
pub mod raw;

pub use authentication::{AuthenticationMD5Password, AuthenticationOk};
pub use backend::{
    BackendKeyData, ColumnData, ColumnDescription, ColumnValue, CommandComplete, DataRow,
    ErrorMessage, ErrorResponse, ParameterStatus, PgType, ReadyForQuery, RowDescription,
    TransactionIndicator,
};
pub use frontend::{PasswordMessage, ProtocolVersion, Query, StartupMessage};
pub use header::{
    body_length, body_length_within, MessageBody, MessageHeader, RequestBody, RequestHeader,
    MAX_BODY_LENGTH,
};
pub use kinds::{
    AuthenticationMessageKind, BackendMessageKind, FrontendMessageKind, RequestMessageKind,
};
pub use raw::{RawBackendMessage, RawFrontendMessage, RawRequest};
