//! What a backend writes to a frontend, with the texts of the messages as
//! `String`s, each message composed into its frame in one call.

use crate::buffer::{new_buffer, written};
use crate::error::{Error, Flaw};
use crate::handler::{message_fits, message_frame, put_message};
use crate::libpq_types::cstring::nul_free;
use crate::libpq_types::elements::values_of;
use crate::libpq_types::CString;
use crate::message::authentication::{AuthenticationMD5Password, AuthenticationOk};
use crate::message::backend::{
    ColumnData, ColumnDescription, ColumnValue, CommandComplete, DataRow,
    ErrorMessage as Field, ErrorResponse, ParameterStatus, ReadyForQuery,
    RowDescription as Columns, TransactionIndicator,
};
use crate::message::header::MessageBody;
use crate::wire::{ByteSized, Serialize, Wire};
use bytes::BytesMut;
use vstd::prelude::*;
use vstd::slice::slice_to_vec;
use vstd::utf8::encode_utf8;

verus! {

/// The description of one column of the result of a query.
#[derive(Debug)]
pub struct RowDescription {
    pub name: String,
    /// The table that the column belongs to, or 0.
    pub relation_id: i32,
    /// The number of the column in its table, or 0.
    pub attribute_id: i16,
    pub datatype_id: i32,
    /// Negative values denote types of variable width.
    pub datatype_len: i16,
    pub datatype_mod: i32,
    /// 0 for text, 1 for binary.
    pub format: i16,
}

/// One field of an error response.
#[derive(Debug)]
pub struct ErrorMessage {
    /// Says what the field holds.
    pub code: char,
    /// The text of the field.
    pub message: String,
}

/// A message of a backend.
#[derive(Debug)]
#[allow(inconsistent_fields)]
pub enum BackendMessage {
    AuthenticationMD5Password { salt: [u8; 4] },
    AuthenticationOk,
    CommandComplete { command_tag: String },
    DataRow { columns: Vec<String> },
    ReadyForQuery,
    RowDescription { columns: Vec<RowDescription> },
    ErrorResponse { messages: Vec<ErrorMessage> },
    ParameterStatus { parameter: String, value: String },
}

impl RowDescription {
    /// The description, with the name as bytes.
    pub open spec fn value(&self) -> ColumnValue {
        (
            encode_utf8(self.name@),
            (
                self.relation_id,
                (
                    self.attribute_id,
                    (self.datatype_id, (self.datatype_len, (self.datatype_mod, self.format))),
                ),
            ),
        )
    }
}

impl ErrorMessage {
    /// The field, with the code as a byte and the text as bytes.
    pub open spec fn value(&self) -> (u8, Seq<u8>) {
        (self.code as u8, encode_utf8(self.message@))
    }
}

/// The values of the columns `columns` of a row.
pub open spec fn row_of(columns: Seq<String>) -> Seq<Option<Seq<u8>>> {
    Seq::new(columns.len(), |i: int| Some(encode_utf8(columns[i]@)))
}

/// The descriptions `columns` of the columns of a row.
pub open spec fn descriptions_of(columns: Seq<RowDescription>) -> Seq<
    ColumnValue,
> {
    Seq::new(columns.len(), |i: int| columns[i].value())
}

/// The fields `messages` of an error response.
pub open spec fn fields_of(messages: Seq<ErrorMessage>) -> Seq<(u8, Seq<u8>)> {
    Seq::new(messages.len(), |i: int| messages[i].value())
}

impl BackendMessage {
    /// The kind byte of the message.
    pub open spec fn kind(&self) -> u8 {
        match self {
            BackendMessage::AuthenticationMD5Password { .. } => AuthenticationMD5Password::kind(),
            BackendMessage::AuthenticationOk => AuthenticationOk::kind(),
            BackendMessage::CommandComplete { .. } => CommandComplete::kind(),
            BackendMessage::DataRow { .. } => DataRow::kind(),
            BackendMessage::ReadyForQuery => ReadyForQuery::kind(),
            BackendMessage::RowDescription { .. } => Columns::kind(),
            BackendMessage::ErrorResponse { .. } => ErrorResponse::kind(),
            BackendMessage::ParameterStatus { .. } => ParameterStatus::kind(),
        }
    }

    /// The body of the message on the wire.
    pub open spec fn body(&self) -> Seq<u8> {
        match self {
            BackendMessage::AuthenticationMD5Password { salt } => AuthenticationMD5Password::encoding(
                (5i32, salt@),
            ),
            BackendMessage::AuthenticationOk => AuthenticationOk::encoding(0i32),
            BackendMessage::CommandComplete { command_tag } => CommandComplete::encoding(
                encode_utf8(command_tag@),
            ),
            BackendMessage::DataRow { columns } => DataRow::encoding(row_of(columns@)),
            BackendMessage::ReadyForQuery => ReadyForQuery::encoding(0x49u8),
            BackendMessage::RowDescription {
                columns,
            } => Columns::encoding(descriptions_of(columns@)),
            BackendMessage::ErrorResponse { messages } => ErrorResponse::encoding(
                fields_of(messages@),
            ),
            BackendMessage::ParameterStatus { parameter, value } => ParameterStatus::encoding(
                (encode_utf8(parameter@), encode_utf8(value@)),
            ),
        }
    }

    /// Whether none of the texts of the message that go null-terminated on
    /// the wire holds a zero byte.
    pub open spec fn texts_nul_free(&self) -> bool {
        match self {
            BackendMessage::CommandComplete { command_tag } => nul_free(encode_utf8(command_tag@)),
            BackendMessage::RowDescription { columns } => forall|i: int|
                0 <= i < columns@.len() ==> nul_free(encode_utf8((#[trigger] columns@[i]).name@)),
            BackendMessage::ErrorResponse { messages } => forall|i: int|
                0 <= i < messages@.len() ==> nul_free(
                    encode_utf8((#[trigger] messages@[i]).message@),
                ),
            BackendMessage::ParameterStatus { parameter, value } => nul_free(
                encode_utf8(parameter@),
            ) && nul_free(encode_utf8(value@)),
            _ => true,
        }
    }

    /// Whether the number of columns of the message, where it has columns,
    /// can go before them as a 16-bit integer.
    pub open spec fn count_fits(&self) -> bool {
        match self {
            BackendMessage::DataRow { columns } => columns@.len() <= i16::MAX,
            BackendMessage::RowDescription { columns } => columns@.len() <= i16::MAX,
            _ => true,
        }
    }

    /// Whether the message can be composed.
    pub open spec fn composable(&self) -> bool {
        &&& self.texts_nul_free()
        &&& self.count_fits()
        &&& message_fits(0, self.body().len())
    }
}

/// The bytes of a sequence stand for themselves.
pub proof fn lemma_values_of_bytes(bytes: Seq<u8>)
    ensures
        values_of::<u8>(bytes) == bytes,
{
    assert(values_of::<u8>(bytes) =~= bytes);
}

/// The frame of `message`, where it fits in one.
fn framed<T>(message: &T) -> (r: Result<BytesMut, Error>) where
    T: MessageBody + Serialize + ByteSized,

    ensures
        match r {
            Ok(frame) => message_fits(0, T::encoding(message.value()).len()) && written(frame)
                == message_frame::<T>(message.value()),
            Err(e) => !message_fits(0, T::encoding(message.value()).len()) && e
                == Error::Malformed(Flaw::TooLarge),
        },
{
    let mut frame = new_buffer();
    put_message(&mut frame, message)?;
    assert(written(frame) =~= message_frame::<T>(message.value()));
    Ok(frame)
}

/// The values of the columns of a row, as the wire carries them.
fn compose_columns(columns: &Vec<String>) -> (r: Vec<ColumnData>)
    ensures
        values_of(r@) == row_of(columns@),
{
    let mut values: Vec<ColumnData> = Vec::new();
    let mut i: usize = 0;
    while i < columns.len()
        invariant
            i <= columns@.len(),
            values@.len() == i,
            values_of(values@) == row_of(columns@.take(i as int)),
        decreases columns@.len() - i,
    {
        let bytes = slice_to_vec(columns[i].as_str().as_bytes());
        let ghost before = values@;
        let column = ColumnData::from(bytes);
        proof {
            lemma_values_of_bytes(bytes@);
            assert(column.value() == Some(encode_utf8(columns@[i as int]@)));
        }
        values.push(column);
        proof {
            let now = values_of(values@);
            let wanted = row_of(columns@.take(i + 1));
            assert forall|j: int| 0 <= j < now.len() implies now[j] == wanted[j] by {
                if j < i {
                    assert(now[j] == values_of(before)[j]);
                    assert(row_of(columns@.take(i as int))[j] == wanted[j]);
                }
            }
            assert(now =~= wanted);
        }
        i = i + 1;
    }
    assert(columns@.take(i as int) =~= columns@);
    values
}

/// The descriptions of the columns of a row, as the wire carries them; none
/// if a name holds a zero byte.
fn compose_descriptions(columns: &Vec<RowDescription>) -> (r: Result<
    Vec<ColumnDescription>,
    Error,
>)
    ensures
        match r {
            Ok(descriptions) => values_of(descriptions@) == descriptions_of(columns@)
                && forall|i: int|
                0 <= i < columns@.len() ==> nul_free(encode_utf8((#[trigger] columns@[i]).name@)),
            Err(e) => e == Error::Malformed(Flaw::InteriorNul) && exists|i: int|
                0 <= i < columns@.len() && !nul_free(encode_utf8((#[trigger] columns@[i]).name@)),
        },
{
    let mut descriptions: Vec<ColumnDescription> = Vec::new();
    let mut i: usize = 0;
    while i < columns.len()
        invariant
            i <= columns@.len(),
            descriptions@.len() == i,
            values_of(descriptions@) == descriptions_of(columns@.take(i as int)),
            forall|j: int| 0 <= j < i ==> nul_free(encode_utf8((#[trigger] columns@[j]).name@)),
        decreases columns@.len() - i,
    {
        let col = &columns[i];
        let name = match CString::new(col.name.as_str()) {
            Ok(name) => name,
            Err(e) => {
                assert(!nul_free(encode_utf8(columns@[i as int].name@)));
                return Err(e);
            },
        };
        let ghost before = descriptions@;
        let description = ColumnDescription {
            name,
            relation_id: col.relation_id,
            attribute_id: col.attribute_id,
            datatype_id: col.datatype_id,
            datatype_len: col.datatype_len,
            datatype_mod: col.datatype_mod,
            format: col.format,
        };
        assert(description.value() == columns@[i as int].value());
        descriptions.push(description);
        proof {
            let now = values_of(descriptions@);
            let wanted = descriptions_of(columns@.take(i + 1));
            assert forall|j: int| 0 <= j < now.len() implies now[j] == wanted[j] by {
                if j < i {
                    assert(now[j] == values_of(before)[j]);
                    assert(descriptions_of(columns@.take(i as int))[j] == wanted[j]);
                }
            }
            assert(now =~= wanted);
        }
        i = i + 1;
    }
    assert(columns@.take(i as int) =~= columns@);
    Ok(descriptions)
}

/// The fields of an error response, as the wire carries them; none if a
/// text holds a zero byte.
fn compose_fields(messages: &Vec<ErrorMessage>) -> (r: Result<
    Vec<Field>,
    Error,
>)
    ensures
        match r {
            Ok(fields) => values_of(fields@) == fields_of(messages@) && forall|i: int|
                0 <= i < messages@.len() ==> nul_free(
                    encode_utf8((#[trigger] messages@[i]).message@),
                ),
            Err(e) => e == Error::Malformed(Flaw::InteriorNul) && exists|i: int|
                0 <= i < messages@.len() && !nul_free(
                    encode_utf8((#[trigger] messages@[i]).message@),
                ),
        },
{
    let mut fields: Vec<Field> = Vec::new();
    let mut i: usize = 0;
    while i < messages.len()
        invariant
            i <= messages@.len(),
            fields@.len() == i,
            values_of(fields@) == fields_of(messages@.take(i as int)),
            forall|j: int|
                0 <= j < i ==> nul_free(encode_utf8((#[trigger] messages@[j]).message@)),
        decreases messages@.len() - i,
    {
        let msg = &messages[i];
        let field = match Field::new(msg.code, &msg.message) {
            Ok(field) => field,
            Err(e) => {
                assert(!nul_free(encode_utf8(messages@[i as int].message@)));
                return Err(e);
            },
        };
        let ghost before = fields@;
        assert(field.value() == messages@[i as int].value());
        fields.push(field);
        proof {
            let now = values_of(fields@);
            let wanted = fields_of(messages@.take(i + 1));
            assert forall|j: int| 0 <= j < now.len() implies now[j] == wanted[j] by {
                if j < i {
                    assert(now[j] == values_of(before)[j]);
                    assert(fields_of(messages@.take(i as int))[j] == wanted[j]);
                }
            }
            assert(now =~= wanted);
        }
        i = i + 1;
    }
    assert(messages@.take(i as int) =~= messages@);
    Ok(fields)
}

impl BackendMessage {
    /// The frame of the message: its kind byte, its length and its body.
    /// There is none where a text that goes null-terminated holds a zero
    /// byte, and none where the message does not fit in a frame.
    pub fn compose(&self) -> (r: Result<BytesMut, Error>)
        ensures
            match r {
                Ok(frame) => self.composable() && written(frame) == crate::handler::frame(
                    self.kind(),
                    self.body(),
                ),
                Err(e) => !self.composable() && e == (if self.texts_nul_free() {
                    Error::Malformed(Flaw::TooLarge)
                } else {
                    Error::Malformed(Flaw::InteriorNul)
                }),
            },
    {
        match &self {
            Self::AuthenticationMD5Password { salt } => framed(
                &AuthenticationMD5Password::new(*salt),
            ),
            Self::AuthenticationOk => framed(&AuthenticationOk::new()),
            Self::CommandComplete { command_tag } => framed(
                &CommandComplete::new(command_tag.clone())?,
            ),
            Self::DataRow { columns } => {
                if columns.len() > 0x7fff {
                    return Err(Error::Malformed(Flaw::TooLarge));
                }
                framed(&DataRow::new(compose_columns(columns)))
            },
            Self::ReadyForQuery => framed(&ReadyForQuery::new(TransactionIndicator::Idle)),
            Self::RowDescription { columns } => {
                let descriptions = compose_descriptions(columns)?;
                if columns.len() > 0x7fff {
                    return Err(Error::Malformed(Flaw::TooLarge));
                }
                framed(&Columns::new(descriptions))
            },
            Self::ErrorResponse { messages } => framed(
                &ErrorResponse::new(compose_fields(messages)?),
            ),
            Self::ParameterStatus { parameter, value } => framed(
                &ParameterStatus::new(parameter, value)?,
            ),
        }
    }
}

} // verus!
