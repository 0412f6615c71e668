//! A typed codec for the PostgreSQL v3 frontend/backend wire protocol, with
//! the two connection state machines that sequence its messages.
//!
//! Every item of this crate is verified with Verus. The only steps taken on
//! trust are the calls into the `bytes` and `md-5` crates, which are gathered
//! in [`buffer`] and [`digest`], and the one call of `String::push` in
//! [`strings`].
//!
//! The codec is stated over a mathematical description of the wire format,
//! [`wire::Wire`]: the value that an item stands for, the bytes of a value,
//! and what reading bytes gives. [`libpq_types`] holds the primitive types,
//! [`record`] the rule by which records are composed of fields, [`message`]
//! the messages and their envelopes, and [`handler`] the two connection
//! protocols. [`backend`] and [`frontend`] offer the messages of a plain
//! server with their texts as `String`s.

pub mod backend;
pub mod buffer;
pub mod digest;
pub mod error;
pub mod frontend;
pub mod handler;
pub mod libpq_types;
pub mod message;
pub mod password;
pub mod record;
pub mod strings;
pub mod wire;
