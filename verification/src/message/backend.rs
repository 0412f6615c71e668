//! The messages of a backend, but for the authentication messages.

use crate::buffer::{be_i32, remaining, share, try_get_i32, written};
use crate::error::{Error, Flaw};
use crate::libpq_types::cstring::nul_free;
use crate::libpq_types::{Byte, CString, Vec16, Vec32, VecNull};
use crate::message::header::MessageBody;
use crate::message::raw::{deserialize_body, projects, typed_decoding, RawBackendMessage};
use crate::record::lemma_skip_twice;
use crate::wire::{checked_sum, read, ByteSized, Decoded, Deserialize, Serialize, Wire};
use bytes::{Bytes, BytesMut};
use vstd::prelude::*;
use vstd::std_specs::convert::{FromSpecImpl, TryFromSpecImpl};
use vstd::utf8::encode_utf8;

verus! {

/// The key of a backend, which a frontend must hold to cancel a query later.
#[derive(Debug, PartialEq)]
pub struct BackendKeyData {
    /// The process of the backend.
    pub process_id: i32,
    /// The secret of the backend.
    pub secret_key: i32,
}

impl Wire for BackendKeyData {
    type Value = (i32, i32);

    open spec fn value(&self) -> (i32, i32) {
        (self.process_id.value(), self.secret_key.value())
    }

    open spec fn well_formed(v: (i32, i32)) -> bool {
        <(i32, i32)>::well_formed(v)
    }

    open spec fn encoding(v: (i32, i32)) -> Seq<u8> {
        <(i32, i32)>::encoding(v)
    }

    open spec fn decoding(s: Seq<u8>) -> Decoded<(i32, i32)> {
        <(i32, i32)>::decoding(s)
    }

    open spec fn fills_buffer() -> bool {
        <(i32, i32)>::fills_buffer()
    }

    proof fn lemma_consumed_in_bounds(s: Seq<u8>) {
        <(i32, i32)>::lemma_consumed_in_bounds(s);
    }

    proof fn lemma_round_trip(v: (i32, i32), rest: Seq<u8>) {
        <(i32, i32)>::lemma_round_trip(v, rest);
    }
}

impl ByteSized for BackendKeyData {
    fn checked_byte_size(&self) -> (size: Option<i32>) {
        checked_sum(
            self.process_id.checked_byte_size(),
            self.secret_key.checked_byte_size(),
        )
    }
}

impl Serialize for BackendKeyData {
    fn serialize(&self, buffer: &mut BytesMut) {
        self.process_id.serialize(buffer);
        self.secret_key.serialize(buffer);
        assert(written(*buffer) =~= written(*old(buffer)) + Self::encoding(self.value()));
    }
}

impl Deserialize for BackendKeyData {
    fn deserialize(buffer: &mut Bytes) -> (r: Result<Self, Error>) {
        proof {
            lemma_skip_twice::<i32, i32>(remaining(*buffer));
        }
        let process_id = i32::deserialize(buffer)?;
        let secret_key = i32::deserialize(buffer)?;
        Ok(BackendKeyData { process_id, secret_key })
    }
}

impl MessageBody for BackendKeyData {
    open spec fn kind() -> u8 {
        0x4b
    }

    fn message_type(&self) -> (kind: u8) {
        0x4b  // 'K'
    }
}

impl BackendKeyData {
    /// The message that tells the key of the process `process_id`.
    pub fn new(process_id: i32, secret_key: i32) -> (message: Self)
        ensures
            message.process_id == process_id,
            message.secret_key == secret_key,
    {
        Self { process_id, secret_key }
    }
}

impl TryFrom<&mut RawBackendMessage> for BackendKeyData {
    type Error = Error;

    /// Reads the message from a frame, which must be of this kind.
    fn try_from(message: &mut RawBackendMessage) -> (r: Result<BackendKeyData, Error>)
        ensures
            projects::<BackendKeyData>(
                typed_decoding::<BackendKeyData>(
                    old(message).header.message_type,
                    remaining(old(message).raw_body),
                ),
                remaining(old(message).raw_body),
                remaining(final(message).raw_body),
                r,
            ),
            final(message).header == old(message).header,
    {
        if 0x4b == message.header.message_type {
            deserialize_body(&mut message.raw_body)
        } else {
            assert(remaining(message.raw_body).skip(0) =~= remaining(message.raw_body));
            Err(Error::UnexpectedMessage)
        }
    }
}

/// The result of `try_from` holds a message, which no function of
/// specifications can build: what `try_from` gives is stated on `try_from`.
impl TryFromSpecImpl<&mut RawBackendMessage> for BackendKeyData {
    open spec fn obeys_try_from_spec() -> bool {
        false
    }

    open spec fn try_from_spec(message: &mut RawBackendMessage) -> Result<BackendKeyData, Error> {
        Err(Error::UnexpectedMessage)
    }
}

/// Tells that a command is done. The tag names the command and, for most
/// commands, the number of rows: `SELECT 1`, `INSERT 0 1`, `UPDATE 3`.
#[derive(Debug, PartialEq)]
pub struct CommandComplete {
    pub command_tag: CString,
}

impl Wire for CommandComplete {
    type Value = Seq<u8>;

    open spec fn value(&self) -> Seq<u8> {
        self.command_tag.value()
    }

    open spec fn well_formed(v: Seq<u8>) -> bool {
        CString::well_formed(v)
    }

    open spec fn encoding(v: Seq<u8>) -> Seq<u8> {
        CString::encoding(v)
    }

    open spec fn decoding(s: Seq<u8>) -> Decoded<Seq<u8>> {
        CString::decoding(s)
    }

    open spec fn fills_buffer() -> bool {
        CString::fills_buffer()
    }

    proof fn lemma_consumed_in_bounds(s: Seq<u8>) {
        CString::lemma_consumed_in_bounds(s);
    }

    proof fn lemma_round_trip(v: Seq<u8>, rest: Seq<u8>) {
        CString::lemma_round_trip(v, rest);
    }
}

impl ByteSized for CommandComplete {
    fn checked_byte_size(&self) -> (size: Option<i32>) {
        self.command_tag.checked_byte_size()
    }
}

impl Serialize for CommandComplete {
    fn serialize(&self, buffer: &mut BytesMut) {
        self.command_tag.serialize(buffer);
    }
}

impl Deserialize for CommandComplete {
    fn deserialize(buffer: &mut Bytes) -> (r: Result<Self, Error>) {
        let command_tag = CString::deserialize(buffer)?;
        Ok(CommandComplete { command_tag })
    }
}

impl MessageBody for CommandComplete {
    open spec fn kind() -> u8 {
        0x43
    }

    fn message_type(&self) -> (kind: u8) {
        0x43  // 'C'
    }
}

impl CommandComplete {
    /// The message with the tag `command_tag`; none if the tag holds a zero
    /// byte.
    pub fn new(command_tag: String) -> (r: Result<Self, Error>)
        ensures
            match r {
                Ok(message) => nul_free(encode_utf8(command_tag@)) && message.command_tag@
                    == encode_utf8(command_tag@),
                Err(e) => !nul_free(encode_utf8(command_tag@)) && e == Error::Malformed(
                    Flaw::InteriorNul,
                ),
            },
    {
        Ok(Self { command_tag: CString::new(command_tag.as_str())? })
    }
}

impl TryFrom<&mut RawBackendMessage> for CommandComplete {
    type Error = Error;

    /// Reads the message from a frame, which must be of this kind.
    fn try_from(message: &mut RawBackendMessage) -> (r: Result<CommandComplete, Error>)
        ensures
            projects::<CommandComplete>(
                typed_decoding::<CommandComplete>(
                    old(message).header.message_type,
                    remaining(old(message).raw_body),
                ),
                remaining(old(message).raw_body),
                remaining(final(message).raw_body),
                r,
            ),
            final(message).header == old(message).header,
    {
        if 0x43 == message.header.message_type {
            deserialize_body(&mut message.raw_body)
        } else {
            assert(remaining(message.raw_body).skip(0) =~= remaining(message.raw_body));
            Err(Error::UnexpectedMessage)
        }
    }
}

/// The result of `try_from` holds a message, which no function of
/// specifications can build: what `try_from` gives is stated on `try_from`.
impl TryFromSpecImpl<&mut RawBackendMessage> for CommandComplete {
    open spec fn obeys_try_from_spec() -> bool {
        false
    }

    open spec fn try_from_spec(message: &mut RawBackendMessage) -> Result<CommandComplete, Error> {
        Err(Error::UnexpectedMessage)
    }
}

/// The value of one column of a row: bytes, or the SQL NULL. On the wire the
/// bytes follow their number as a 32-bit integer, and the NULL is the number
/// -1 with no bytes behind it.
#[derive(Debug, PartialEq)]
pub struct ColumnData(pub Option<Vec32<Byte>>);

impl ColumnData {
    /// A value of no bytes, which is not the NULL.
    pub fn new() -> (column: Self)
        ensures
            column.0 is Some,
            column.0->Some_0@ == Seq::<u8>::empty(),
    {
        ColumnData(Some(Vec32::new()))
    }

    /// The NULL.
    pub fn null() -> (column: Self)
        ensures
            column.0 is None,
    {
        ColumnData(None)
    }

    /// Whether the value is the NULL.
    pub fn is_null(&self) -> (null: bool)
        ensures
            null == (self.0 is None),
    {
        self.0.is_none()
    }
}

impl From<Vec<Byte>> for ColumnData {
    fn from(item: Vec<Byte>) -> (column: ColumnData)
        ensures
            column.0 is Some,
            column.0->Some_0@ == item@,
    {
        ColumnData(Some(Vec32::from(item)))
    }
}

/// The result of `from` holds an array, which no function of specifications
/// can build: what `from` gives is stated on `from`.
impl FromSpecImpl<Vec<Byte>> for ColumnData {
    open spec fn obeys_from_spec() -> bool {
        false
    }

    open spec fn from_spec(item: Vec<Byte>) -> ColumnData {
        ColumnData(None)
    }
}

impl Wire for ColumnData {
    type Value = Option<Seq<u8>>;

    open spec fn value(&self) -> Option<Seq<u8>> {
        match self.0 {
            None => None,
            Some(bytes) => Some(bytes.value()),
        }
    }

    open spec fn well_formed(v: Option<Seq<u8>>) -> bool {
        match v {
            None => true,
            Some(bytes) => Vec32::<Byte>::well_formed(bytes),
        }
    }

    open spec fn encoding(v: Option<Seq<u8>>) -> Seq<u8> {
        match v {
            None => be_i32(-1i32),
            Some(bytes) => Vec32::<Byte>::encoding(bytes),
        }
    }

    open spec fn decoding(s: Seq<u8>) -> Decoded<Option<Seq<u8>>> {
        if i32::decoding(s).outcome == Ok::<i32, Error>(-1i32) {
            read(None, 4)
        } else {
            let bytes = Vec32::<Byte>::decoding(s);
            Decoded {
                outcome: match bytes.outcome {
                    Ok(b) => Ok(Some(b)),
                    Err(e) => Err(e),
                },
                consumed: bytes.consumed,
            }
        }
    }

    open spec fn fills_buffer() -> bool {
        false
    }

    proof fn lemma_consumed_in_bounds(s: Seq<u8>) {
        Vec32::<Byte>::lemma_consumed_in_bounds(s);
    }

    proof fn lemma_round_trip(v: Option<Seq<u8>>, rest: Seq<u8>) {
        match v {
            None => {
                i32::lemma_round_trip(-1i32, rest);
            },
            Some(bytes) => {
                let after = Vec32::<Byte>::encoding(bytes).skip(4) + rest;
                assert(Vec32::<Byte>::encoding(bytes) + rest =~= be_i32(bytes.len() as i32)
                    + after);
                i32::lemma_round_trip(bytes.len() as i32, after);
                Vec32::<Byte>::lemma_round_trip(bytes, rest);
            },
        }
    }
}

impl ByteSized for ColumnData {
    fn checked_byte_size(&self) -> (size: Option<i32>) {
        match &self.0 {
            None => Some(4),
            Some(bytes) => bytes.checked_byte_size(),
        }
    }
}

impl Serialize for ColumnData {
    fn serialize(&self, buffer: &mut BytesMut) {
        match &self.0 {
            None => (-1i32).serialize(buffer),
            Some(bytes) => bytes.serialize(buffer),
        }
    }
}

impl Deserialize for ColumnData {
    fn deserialize(buffer: &mut Bytes) -> (r: Result<Self, Error>) {
        let mut peek = share(buffer);
        if let Ok(-1) = try_get_i32(&mut peek) {
            let _ = i32::deserialize(buffer)?;
            return Ok(ColumnData(None));
        }
        Ok(ColumnData(Some(Vec32::deserialize(buffer)?)))
    }
}

/// One row of the result of a query: the values of its columns, in order,
/// with their number as a 16-bit integer before them.
#[derive(Debug, PartialEq)]
pub struct DataRow {
    pub columns: Vec16<ColumnData>,
}

impl Wire for DataRow {
    type Value = Seq<Option<Seq<u8>>>;

    open spec fn value(&self) -> Seq<Option<Seq<u8>>> {
        self.columns.value()
    }

    open spec fn well_formed(v: Seq<Option<Seq<u8>>>) -> bool {
        Vec16::<ColumnData>::well_formed(v)
    }

    open spec fn encoding(v: Seq<Option<Seq<u8>>>) -> Seq<u8> {
        Vec16::<ColumnData>::encoding(v)
    }

    open spec fn decoding(s: Seq<u8>) -> Decoded<Seq<Option<Seq<u8>>>> {
        Vec16::<ColumnData>::decoding(s)
    }

    open spec fn fills_buffer() -> bool {
        Vec16::<ColumnData>::fills_buffer()
    }

    proof fn lemma_consumed_in_bounds(s: Seq<u8>) {
        Vec16::<ColumnData>::lemma_consumed_in_bounds(s);
    }

    proof fn lemma_round_trip(v: Seq<Option<Seq<u8>>>, rest: Seq<u8>) {
        Vec16::<ColumnData>::lemma_round_trip(v, rest);
    }
}

impl ByteSized for DataRow {
    fn checked_byte_size(&self) -> (size: Option<i32>) {
        self.columns.checked_byte_size()
    }
}

impl Serialize for DataRow {
    fn serialize(&self, buffer: &mut BytesMut) {
        self.columns.serialize(buffer);
    }
}

impl Deserialize for DataRow {
    fn deserialize(buffer: &mut Bytes) -> (r: Result<Self, Error>) {
        let columns = Vec16::<ColumnData>::deserialize(buffer)?;
        Ok(DataRow { columns })
    }
}

impl MessageBody for DataRow {
    open spec fn kind() -> u8 {
        0x44
    }

    fn message_type(&self) -> (kind: u8) {
        0x44  // 'D'
    }
}

impl DataRow {
    /// The row with the values `columns`.
    pub fn new(columns: Vec<ColumnData>) -> (message: Self)
        ensures
            message.columns@ == columns@,
    {
        Self { columns: Vec16::from(columns) }
    }
}

impl TryFrom<&mut RawBackendMessage> for DataRow {
    type Error = Error;

    /// Reads the message from a frame, which must be of this kind.
    fn try_from(message: &mut RawBackendMessage) -> (r: Result<DataRow, Error>)
        ensures
            projects::<DataRow>(
                typed_decoding::<DataRow>(
                    old(message).header.message_type,
                    remaining(old(message).raw_body),
                ),
                remaining(old(message).raw_body),
                remaining(final(message).raw_body),
                r,
            ),
            final(message).header == old(message).header,
    {
        if 0x44 == message.header.message_type {
            deserialize_body(&mut message.raw_body)
        } else {
            assert(remaining(message.raw_body).skip(0) =~= remaining(message.raw_body));
            Err(Error::UnexpectedMessage)
        }
    }
}

/// The result of `try_from` holds a message, which no function of
/// specifications can build: what `try_from` gives is stated on `try_from`.
impl TryFromSpecImpl<&mut RawBackendMessage> for DataRow {
    open spec fn obeys_try_from_spec() -> bool {
        false
    }

    open spec fn try_from_spec(message: &mut RawBackendMessage) -> Result<DataRow, Error> {
        Err(Error::UnexpectedMessage)
    }
}

/// One field of an error response.
#[derive(Debug, PartialEq)]
pub struct ErrorMessage {
    /// Says what the field holds: `M` for the message to show, `S` for the
    /// severity, `C` for the SQLSTATE code.
    pub code: Byte,
    /// The text of the field.
    pub message: CString,
}

impl Wire for ErrorMessage {
    type Value = (u8, Seq<u8>);

    open spec fn value(&self) -> (u8, Seq<u8>) {
        (self.code.value(), self.message.value())
    }

    open spec fn well_formed(v: (u8, Seq<u8>)) -> bool {
        <(Byte, CString)>::well_formed(v)
    }

    open spec fn encoding(v: (u8, Seq<u8>)) -> Seq<u8> {
        <(Byte, CString)>::encoding(v)
    }

    open spec fn decoding(s: Seq<u8>) -> Decoded<(u8, Seq<u8>)> {
        <(Byte, CString)>::decoding(s)
    }

    open spec fn fills_buffer() -> bool {
        <(Byte, CString)>::fills_buffer()
    }

    proof fn lemma_consumed_in_bounds(s: Seq<u8>) {
        <(Byte, CString)>::lemma_consumed_in_bounds(s);
    }

    proof fn lemma_round_trip(v: (u8, Seq<u8>), rest: Seq<u8>) {
        <(Byte, CString)>::lemma_round_trip(v, rest);
    }
}

impl ByteSized for ErrorMessage {
    fn checked_byte_size(&self) -> (size: Option<i32>) {
        checked_sum(
            self.code.checked_byte_size(),
            self.message.checked_byte_size(),
        )
    }
}

impl Serialize for ErrorMessage {
    fn serialize(&self, buffer: &mut BytesMut) {
        self.code.serialize(buffer);
        self.message.serialize(buffer);
        assert(written(*buffer) =~= written(*old(buffer)) + Self::encoding(self.value()));
    }
}

impl Deserialize for ErrorMessage {
    fn deserialize(buffer: &mut Bytes) -> (r: Result<Self, Error>) {
        proof {
            lemma_skip_twice::<Byte, CString>(remaining(*buffer));
        }
        let code = Byte::deserialize(buffer)?;
        let message = CString::deserialize(buffer)?;
        Ok(ErrorMessage { code, message })
    }
}

impl ErrorMessage {
    /// The field that holds `message` under the code `code`; none if the
    /// text holds a zero byte.
    pub fn new(code: char, message: &String) -> (r: Result<Self, Error>)
        ensures
            match r {
                Ok(field) => nul_free(encode_utf8(message@)) && field.code == code as u8
                    && field.message@ == encode_utf8(message@),
                Err(e) => !nul_free(encode_utf8(message@)) && e == Error::Malformed(
                    Flaw::InteriorNul,
                ),
            },
    {
        let code = #[verifier::truncate] (code as u8);
        Ok(Self { code, message: CString::new(message.as_str())? })
    }
}

/// Tells that something went wrong: the fields that describe the error, one
/// after the other up to a zero byte.
#[derive(Debug, PartialEq)]
pub struct ErrorResponse {
    pub messages: VecNull<ErrorMessage>,
}

impl Wire for ErrorResponse {
    type Value = Seq<(u8, Seq<u8>)>;

    open spec fn value(&self) -> Seq<(u8, Seq<u8>)> {
        self.messages.value()
    }

    open spec fn well_formed(v: Seq<(u8, Seq<u8>)>) -> bool {
        VecNull::<ErrorMessage>::well_formed(v)
    }

    open spec fn encoding(v: Seq<(u8, Seq<u8>)>) -> Seq<u8> {
        VecNull::<ErrorMessage>::encoding(v)
    }

    open spec fn decoding(s: Seq<u8>) -> Decoded<Seq<(u8, Seq<u8>)>> {
        VecNull::<ErrorMessage>::decoding(s)
    }

    open spec fn fills_buffer() -> bool {
        VecNull::<ErrorMessage>::fills_buffer()
    }

    proof fn lemma_consumed_in_bounds(s: Seq<u8>) {
        VecNull::<ErrorMessage>::lemma_consumed_in_bounds(s);
    }

    proof fn lemma_round_trip(v: Seq<(u8, Seq<u8>)>, rest: Seq<u8>) {
        VecNull::<ErrorMessage>::lemma_round_trip(v, rest);
    }
}

impl ByteSized for ErrorResponse {
    fn checked_byte_size(&self) -> (size: Option<i32>) {
        self.messages.checked_byte_size()
    }
}

impl Serialize for ErrorResponse {
    fn serialize(&self, buffer: &mut BytesMut) {
        self.messages.serialize(buffer);
    }
}

impl Deserialize for ErrorResponse {
    fn deserialize(buffer: &mut Bytes) -> (r: Result<Self, Error>) {
        let messages = VecNull::<ErrorMessage>::deserialize(buffer)?;
        Ok(ErrorResponse { messages })
    }
}

impl MessageBody for ErrorResponse {
    open spec fn kind() -> u8 {
        0x45
    }

    fn message_type(&self) -> (kind: u8) {
        0x45  // 'E'
    }
}

impl ErrorResponse {
    /// The response with the fields `messages`.
    pub fn new(messages: Vec<ErrorMessage>) -> (message: Self)
        ensures
            message.messages@ == messages@,
    {
        Self { messages: VecNull::from(messages) }
    }
}

impl TryFrom<&mut RawBackendMessage> for ErrorResponse {
    type Error = Error;

    /// Reads the message from a frame, which must be of this kind.
    fn try_from(message: &mut RawBackendMessage) -> (r: Result<ErrorResponse, Error>)
        ensures
            projects::<ErrorResponse>(
                typed_decoding::<ErrorResponse>(
                    old(message).header.message_type,
                    remaining(old(message).raw_body),
                ),
                remaining(old(message).raw_body),
                remaining(final(message).raw_body),
                r,
            ),
            final(message).header == old(message).header,
    {
        if 0x45 == message.header.message_type {
            deserialize_body(&mut message.raw_body)
        } else {
            assert(remaining(message.raw_body).skip(0) =~= remaining(message.raw_body));
            Err(Error::UnexpectedMessage)
        }
    }
}

/// The result of `try_from` holds a message, which no function of
/// specifications can build: what `try_from` gives is stated on `try_from`.
impl TryFromSpecImpl<&mut RawBackendMessage> for ErrorResponse {
    open spec fn obeys_try_from_spec() -> bool {
        false
    }

    open spec fn try_from_spec(message: &mut RawBackendMessage) -> Result<ErrorResponse, Error> {
        Err(Error::UnexpectedMessage)
    }
}

/// The name and the value of a run-time parameter. A backend reports the
/// parameters of the session in such messages; a frontend asks for
/// parameters with such pairs in its startup message.
#[derive(Debug, PartialEq)]
pub struct ParameterStatus {
    pub name: CString,
    pub value: CString,
}

impl Wire for ParameterStatus {
    type Value = (Seq<u8>, Seq<u8>);

    open spec fn value(&self) -> (Seq<u8>, Seq<u8>) {
        (self.name.value(), self.value.value())
    }

    open spec fn well_formed(v: (Seq<u8>, Seq<u8>)) -> bool {
        <(CString, CString)>::well_formed(v)
    }

    open spec fn encoding(v: (Seq<u8>, Seq<u8>)) -> Seq<u8> {
        <(CString, CString)>::encoding(v)
    }

    open spec fn decoding(s: Seq<u8>) -> Decoded<(Seq<u8>, Seq<u8>)> {
        <(CString, CString)>::decoding(s)
    }

    open spec fn fills_buffer() -> bool {
        <(CString, CString)>::fills_buffer()
    }

    proof fn lemma_consumed_in_bounds(s: Seq<u8>) {
        <(CString, CString)>::lemma_consumed_in_bounds(s);
    }

    proof fn lemma_round_trip(v: (Seq<u8>, Seq<u8>), rest: Seq<u8>) {
        <(CString, CString)>::lemma_round_trip(v, rest);
    }
}

impl ByteSized for ParameterStatus {
    fn checked_byte_size(&self) -> (size: Option<i32>) {
        checked_sum(
            self.name.checked_byte_size(),
            self.value.checked_byte_size(),
        )
    }
}

impl Serialize for ParameterStatus {
    fn serialize(&self, buffer: &mut BytesMut) {
        self.name.serialize(buffer);
        self.value.serialize(buffer);
        assert(written(*buffer) =~= written(*old(buffer)) + Self::encoding(self.value()));
    }
}

impl Deserialize for ParameterStatus {
    fn deserialize(buffer: &mut Bytes) -> (r: Result<Self, Error>) {
        proof {
            lemma_skip_twice::<CString, CString>(remaining(*buffer));
        }
        let name = CString::deserialize(buffer)?;
        let value = CString::deserialize(buffer)?;
        Ok(ParameterStatus { name, value })
    }
}

impl MessageBody for ParameterStatus {
    open spec fn kind() -> u8 {
        0x53
    }

    fn message_type(&self) -> (kind: u8) {
        0x53  // 'S'
    }
}

impl ParameterStatus {
    /// The pair of `name` and `value`; none if one of them holds a zero byte.
    pub fn new(name: &String, value: &String) -> (r: Result<Self, Error>)
        ensures
            match r {
                Ok(pair) => nul_free(encode_utf8(name@)) && nul_free(encode_utf8(value@))
                    && pair.name@ == encode_utf8(name@) && pair.value@ == encode_utf8(value@),
                Err(e) => !(nul_free(encode_utf8(name@)) && nul_free(encode_utf8(value@))) && e
                    == Error::Malformed(Flaw::InteriorNul),
            },
    {
        Ok(Self { name: CString::new(name.as_str())?, value: CString::new(value.as_str())? })
    }
}

impl TryFrom<&mut RawBackendMessage> for ParameterStatus {
    type Error = Error;

    /// Reads the message from a frame, which must be of this kind.
    fn try_from(message: &mut RawBackendMessage) -> (r: Result<ParameterStatus, Error>)
        ensures
            projects::<ParameterStatus>(
                typed_decoding::<ParameterStatus>(
                    old(message).header.message_type,
                    remaining(old(message).raw_body),
                ),
                remaining(old(message).raw_body),
                remaining(final(message).raw_body),
                r,
            ),
            final(message).header == old(message).header,
    {
        if 0x53 == message.header.message_type {
            deserialize_body(&mut message.raw_body)
        } else {
            assert(remaining(message.raw_body).skip(0) =~= remaining(message.raw_body));
            Err(Error::UnexpectedMessage)
        }
    }
}

/// The result of `try_from` holds a message, which no function of
/// specifications can build: what `try_from` gives is stated on `try_from`.
impl TryFromSpecImpl<&mut RawBackendMessage> for ParameterStatus {
    open spec fn obeys_try_from_spec() -> bool {
        false
    }

    open spec fn try_from_spec(message: &mut RawBackendMessage) -> Result<ParameterStatus, Error> {
        Err(Error::UnexpectedMessage)
    }
}

/// Tells the frontend that the backend is ready for a new query, and in what
/// state its transaction is.
#[derive(Debug, PartialEq)]
pub struct ReadyForQuery {
    pub transaction_indicator: Byte,
}

impl Wire for ReadyForQuery {
    type Value = u8;

    open spec fn value(&self) -> u8 {
        self.transaction_indicator.value()
    }

    open spec fn well_formed(v: u8) -> bool {
        Byte::well_formed(v)
    }

    open spec fn encoding(v: u8) -> Seq<u8> {
        Byte::encoding(v)
    }

    open spec fn decoding(s: Seq<u8>) -> Decoded<u8> {
        Byte::decoding(s)
    }

    open spec fn fills_buffer() -> bool {
        Byte::fills_buffer()
    }

    proof fn lemma_consumed_in_bounds(s: Seq<u8>) {
        Byte::lemma_consumed_in_bounds(s);
    }

    proof fn lemma_round_trip(v: u8, rest: Seq<u8>) {
        Byte::lemma_round_trip(v, rest);
    }
}

impl ByteSized for ReadyForQuery {
    fn checked_byte_size(&self) -> (size: Option<i32>) {
        self.transaction_indicator.checked_byte_size()
    }
}

impl Serialize for ReadyForQuery {
    fn serialize(&self, buffer: &mut BytesMut) {
        self.transaction_indicator.serialize(buffer);
    }
}

impl Deserialize for ReadyForQuery {
    fn deserialize(buffer: &mut Bytes) -> (r: Result<Self, Error>) {
        let transaction_indicator = Byte::deserialize(buffer)?;
        Ok(ReadyForQuery { transaction_indicator })
    }
}

impl MessageBody for ReadyForQuery {
    open spec fn kind() -> u8 {
        0x5a
    }

    fn message_type(&self) -> (kind: u8) {
        0x5a  // 'Z'
    }
}

impl ReadyForQuery {
    /// The message that tells the state `transaction_indicator`.
    pub fn new(transaction_indicator: TransactionIndicator) -> (message: Self)
        ensures
            message.transaction_indicator == transaction_indicator.code(),
    {
        Self { transaction_indicator: Byte::from(&transaction_indicator) }
    }
}

impl TryFrom<&mut RawBackendMessage> for ReadyForQuery {
    type Error = Error;

    /// Reads the message from a frame, which must be of this kind.
    fn try_from(message: &mut RawBackendMessage) -> (r: Result<ReadyForQuery, Error>)
        ensures
            projects::<ReadyForQuery>(
                typed_decoding::<ReadyForQuery>(
                    old(message).header.message_type,
                    remaining(old(message).raw_body),
                ),
                remaining(old(message).raw_body),
                remaining(final(message).raw_body),
                r,
            ),
            final(message).header == old(message).header,
    {
        if 0x5a == message.header.message_type {
            deserialize_body(&mut message.raw_body)
        } else {
            assert(remaining(message.raw_body).skip(0) =~= remaining(message.raw_body));
            Err(Error::UnexpectedMessage)
        }
    }
}

/// The result of `try_from` holds a message, which no function of
/// specifications can build: what `try_from` gives is stated on `try_from`.
impl TryFromSpecImpl<&mut RawBackendMessage> for ReadyForQuery {
    open spec fn obeys_try_from_spec() -> bool {
        false
    }

    open spec fn try_from_spec(message: &mut RawBackendMessage) -> Result<ReadyForQuery, Error> {
        Err(Error::UnexpectedMessage)
    }
}

/// The state of the transaction of a backend.
#[derive(Debug, Clone, Copy, PartialEq, Eq, Structural)]
pub enum TransactionIndicator {
    /// `I`: not in a transaction.
    Idle,
    /// `T`: in a transaction.
    IdleInTransaction,
    /// `E`: in a transaction that failed.
    IdleInTransactionAborted,
}

impl TransactionIndicator {
    /// The byte that stands for the state.
    pub open spec fn code(self) -> u8 {
        match self {
            TransactionIndicator::Idle => 0x49,  // 'I'
            TransactionIndicator::IdleInTransaction => 0x54,  // 'T'
            TransactionIndicator::IdleInTransactionAborted => 0x45,  // 'E'
        }
    }

    /// The state that a byte stands for, if any.
    pub open spec fn of_code(code: u8) -> Option<TransactionIndicator> {
        if code == 0x49 {
            Some(TransactionIndicator::Idle)
        } else if code == 0x54 {
            Some(TransactionIndicator::IdleInTransaction)
        } else if code == 0x45 {
            Some(TransactionIndicator::IdleInTransactionAborted)
        } else {
            None
        }
    }

    /// The byte of a state stands for that state, and a state is found only
    /// under its own byte.
    pub proof fn lemma_code_round_trip(state: TransactionIndicator, code: u8)
        ensures
            Self::of_code(state.code()) == Some(state),
            Self::of_code(code) == Some(state) ==> state.code() == code,
    {
    }
}

impl TryFrom<&Byte> for TransactionIndicator {
    type Error = Error;

    fn try_from(item: &Byte) -> (r: Result<TransactionIndicator, Error>) {
        match *item {
            0x49 => Ok(TransactionIndicator::Idle),
            0x54 => Ok(TransactionIndicator::IdleInTransaction),
            0x45 => Ok(TransactionIndicator::IdleInTransactionAborted),
            _ => Err(Error::UnsupportedKind),
        }
    }
}

impl TryFromSpecImpl<&Byte> for TransactionIndicator {
    open spec fn obeys_try_from_spec() -> bool {
        true
    }

    open spec fn try_from_spec(item: &Byte) -> Result<TransactionIndicator, Error> {
        match TransactionIndicator::of_code(*item) {
            Some(state) => Ok(state),
            None => Err(Error::UnsupportedKind),
        }
    }
}

impl From<&TransactionIndicator> for Byte {
    fn from(item: &TransactionIndicator) -> (code: Byte) {
        match item {
            TransactionIndicator::Idle => 0x49,
            TransactionIndicator::IdleInTransaction => 0x54,
            TransactionIndicator::IdleInTransactionAborted => 0x45,
        }
    }
}

impl FromSpecImpl<&TransactionIndicator> for Byte {
    open spec fn obeys_from_spec() -> bool {
        true
    }

    open spec fn from_spec(item: &TransactionIndicator) -> Byte {
        item.code()
    }
}

/// What a description of a column stands for: the name, then the numbers in
/// the order in which they go on the wire.
pub type ColumnValue = (Seq<u8>, (i32, (i16, (i32, (i16, (i32, i16))))));

/// Describes one column of the result of a query.
#[derive(Debug, PartialEq)]
pub struct ColumnDescription {
    /// The name of the column.
    pub name: CString,
    /// The table that the column belongs to, or 0.
    pub relation_id: i32,
    /// The number of the column in its table, or 0.
    pub attribute_id: i16,
    /// The type of the column.
    pub datatype_id: i32,
    /// The size of the type; negative for a type of variable width.
    pub datatype_len: i16,
    /// The modifier of the type.
    pub datatype_mod: i32,
    /// 0 for text, 1 for binary.
    pub format: i16,
}

impl Wire for ColumnDescription {
    type Value = ColumnValue;

    open spec fn value(&self) -> ColumnValue {
        (
            self.name.value(),
            (
                self.relation_id.value(),
                (
                    self.attribute_id.value(),
                    (
                        self.datatype_id.value(),
                        (
                            self.datatype_len.value(),
                            (self.datatype_mod.value(), self.format.value()),
                        ),
                    ),
                ),
            ),
        )
    }

    open spec fn well_formed(v: ColumnValue) -> bool {
        <(CString, (i32, (i16, (i32, (i16, (i32, i16))))))>::well_formed(v)
    }

    open spec fn encoding(v: ColumnValue) -> Seq<u8> {
        <(CString, (i32, (i16, (i32, (i16, (i32, i16))))))>::encoding(v)
    }

    open spec fn decoding(s: Seq<u8>) -> Decoded<ColumnValue> {
        <(CString, (i32, (i16, (i32, (i16, (i32, i16))))))>::decoding(s)
    }

    open spec fn fills_buffer() -> bool {
        <(CString, (i32, (i16, (i32, (i16, (i32, i16))))))>::fills_buffer()
    }

    proof fn lemma_consumed_in_bounds(s: Seq<u8>) {
        <(CString, (i32, (i16, (i32, (i16, (i32, i16))))))>::lemma_consumed_in_bounds(s);
    }

    proof fn lemma_round_trip(v: ColumnValue, rest: Seq<u8>) {
        <(CString, (i32, (i16, (i32, (i16, (i32, i16))))))>::lemma_round_trip(v, rest);
    }
}

impl ByteSized for ColumnDescription {
    fn checked_byte_size(&self) -> (size: Option<i32>) {
        checked_sum(
            self.name.checked_byte_size(),
            checked_sum(
                self.relation_id.checked_byte_size(),
                checked_sum(
                    self.attribute_id.checked_byte_size(),
                    checked_sum(
                        self.datatype_id.checked_byte_size(),
                        checked_sum(
                            self.datatype_len.checked_byte_size(),
                            checked_sum(
                                self.datatype_mod.checked_byte_size(),
                                self.format.checked_byte_size(),
                            ),
                        ),
                    ),
                ),
            ),
        )
    }
}

impl Serialize for ColumnDescription {
    fn serialize(&self, buffer: &mut BytesMut) {
        self.name.serialize(buffer);
        self.relation_id.serialize(buffer);
        self.attribute_id.serialize(buffer);
        self.datatype_id.serialize(buffer);
        self.datatype_len.serialize(buffer);
        self.datatype_mod.serialize(buffer);
        self.format.serialize(buffer);
        assert(written(*buffer) =~= written(*old(buffer)) + Self::encoding(self.value()));
    }
}

impl Deserialize for ColumnDescription {
    fn deserialize(buffer: &mut Bytes) -> (r: Result<Self, Error>) {
        proof {
            lemma_skip_twice::<CString, (i32, (i16, (i32, (i16, (i32, i16)))))>(remaining(*buffer));
        }
        let name = CString::deserialize(buffer)?;
        proof {
            lemma_skip_twice::<i32, (i16, (i32, (i16, (i32, i16))))>(remaining(*buffer));
        }
        let relation_id = i32::deserialize(buffer)?;
        proof {
            lemma_skip_twice::<i16, (i32, (i16, (i32, i16)))>(remaining(*buffer));
        }
        let attribute_id = i16::deserialize(buffer)?;
        proof {
            lemma_skip_twice::<i32, (i16, (i32, i16))>(remaining(*buffer));
        }
        let datatype_id = i32::deserialize(buffer)?;
        proof {
            lemma_skip_twice::<i16, (i32, i16)>(remaining(*buffer));
        }
        let datatype_len = i16::deserialize(buffer)?;
        proof {
            lemma_skip_twice::<i32, i16>(remaining(*buffer));
        }
        let datatype_mod = i32::deserialize(buffer)?;
        let format = i16::deserialize(buffer)?;
        Ok(
            ColumnDescription {
                name,
                relation_id,
                attribute_id,
                datatype_id,
                datatype_len,
                datatype_mod,
                format,
            },
        )
    }
}

impl ColumnDescription {
    /// The description of a column with the name `name` and the type
    /// `pgtype`, which belongs to no table; none if the name holds a zero
    /// byte.
    pub fn new(name: &String, pgtype: PgType) -> (r: Result<Self, Error>)
        ensures
            match r {
                Ok(column) => nul_free(encode_utf8(name@)) && column.value() == (
                    encode_utf8(name@),
                    (
                        0i32,
                        (0i16, (pgtype.oid(), (pgtype.length(), (pgtype.modifier(), pgtype.code())))),
                    ),
                ),
                Err(e) => !nul_free(encode_utf8(name@)) && e == Error::Malformed(
                    Flaw::InteriorNul,
                ),
            },
    {
        Ok(
            Self {
                name: CString::new(name.as_str())?,
                relation_id: 0,
                attribute_id: 0,
                datatype_id: i32::from(&pgtype),
                datatype_len: pgtype.typlen(),
                datatype_mod: pgtype.typmod(),
                format: pgtype.format(),
            },
        )
    }
}

/// The types of column that the library knows, each with its canonical
/// description.
#[derive(Debug, Clone, Copy, PartialEq, Eq, Structural)]
pub enum PgType {
    Bool,
    Int4,
    Text,
    Oid,
}

impl PgType {
    /// The object identifier of the type.
    pub open spec fn oid(self) -> i32 {
        match self {
            PgType::Bool => 16,
            PgType::Int4 => 23,
            PgType::Text => 25,
            PgType::Oid => 26,
        }
    }

    /// The size of the type in bytes, or -1 for a type of variable width.
    pub open spec fn length(self) -> i16 {
        match self {
            PgType::Bool => 1,
            PgType::Int4 => 4,
            PgType::Text => -1i16,
            PgType::Oid => 4,
        }
    }

    /// The modifier of the type: -1, for none.
    pub open spec fn modifier(self) -> i32 {
        -1i32
    }

    /// The format code of the type.
    pub open spec fn code(self) -> i16 {
        match self {
            PgType::Bool => 0,
            PgType::Int4 => 0,
            PgType::Text => 1,
            PgType::Oid => 0,
        }
    }

    /// The size of the type in bytes, or -1 for a type of variable width.
    pub fn typlen(&self) -> (len: i16)
        ensures
            len == self.length(),
    {
        match &self {
            PgType::Bool => 1,
            PgType::Int4 => 4,
            PgType::Text => -1,
            PgType::Oid => 4,
        }
    }

    /// The modifier of the type: -1, for none.
    pub fn typmod(&self) -> (modifier: i32)
        ensures
            modifier == self.modifier(),
    {
        match &self {
            PgType::Bool => -1,
            PgType::Int4 => -1,
            PgType::Text => -1,
            PgType::Oid => -1,
        }
    }

    /// The format code of the type.
    pub fn format(&self) -> (code: i16)
        ensures
            code == self.code(),
    {
        match &self {
            PgType::Bool => 0,
            PgType::Int4 => 0,
            PgType::Text => 1,
            PgType::Oid => 0,
        }
    }
}

impl From<&PgType> for i32 {
    fn from(pg_type: &PgType) -> (oid: i32) {
        match pg_type {
            PgType::Bool => 16,
            PgType::Int4 => 23,
            PgType::Text => 25,
            PgType::Oid => 26,
        }
    }
}

impl FromSpecImpl<&PgType> for i32 {
    open spec fn obeys_from_spec() -> bool {
        true
    }

    open spec fn from_spec(pg_type: &PgType) -> i32 {
        pg_type.oid()
    }
}

/// Describes the rows of the result of a query: its columns, in order, with
/// their number as a 16-bit integer before them.
#[derive(Debug, PartialEq)]
pub struct RowDescription {
    pub columns: Vec16<ColumnDescription>,
}

impl Wire for RowDescription {
    type Value = Seq<ColumnValue>;

    open spec fn value(&self) -> Seq<ColumnValue> {
        self.columns.value()
    }

    open spec fn well_formed(v: Seq<ColumnValue>) -> bool {
        Vec16::<ColumnDescription>::well_formed(v)
    }

    open spec fn encoding(v: Seq<ColumnValue>) -> Seq<u8> {
        Vec16::<ColumnDescription>::encoding(v)
    }

    open spec fn decoding(s: Seq<u8>) -> Decoded<Seq<ColumnValue>> {
        Vec16::<ColumnDescription>::decoding(s)
    }

    open spec fn fills_buffer() -> bool {
        Vec16::<ColumnDescription>::fills_buffer()
    }

    proof fn lemma_consumed_in_bounds(s: Seq<u8>) {
        Vec16::<ColumnDescription>::lemma_consumed_in_bounds(s);
    }

    proof fn lemma_round_trip(v: Seq<ColumnValue>, rest: Seq<u8>) {
        Vec16::<ColumnDescription>::lemma_round_trip(v, rest);
    }
}

impl ByteSized for RowDescription {
    fn checked_byte_size(&self) -> (size: Option<i32>) {
        self.columns.checked_byte_size()
    }
}

impl Serialize for RowDescription {
    fn serialize(&self, buffer: &mut BytesMut) {
        self.columns.serialize(buffer);
    }
}

impl Deserialize for RowDescription {
    fn deserialize(buffer: &mut Bytes) -> (r: Result<Self, Error>) {
        let columns = Vec16::<ColumnDescription>::deserialize(buffer)?;
        Ok(RowDescription { columns })
    }
}

impl MessageBody for RowDescription {
    open spec fn kind() -> u8 {
        0x54
    }

    fn message_type(&self) -> (kind: u8) {
        0x54  // 'T'
    }
}

impl RowDescription {
    /// The description of rows with the columns `columns`.
    pub fn new(columns: Vec<ColumnDescription>) -> (message: Self)
        ensures
            message.columns@ == columns@,
    {
        Self { columns: Vec16::from(columns) }
    }
}

impl TryFrom<&mut RawBackendMessage> for RowDescription {
    type Error = Error;

    /// Reads the message from a frame, which must be of this kind.
    fn try_from(message: &mut RawBackendMessage) -> (r: Result<RowDescription, Error>)
        ensures
            projects::<RowDescription>(
                typed_decoding::<RowDescription>(
                    old(message).header.message_type,
                    remaining(old(message).raw_body),
                ),
                remaining(old(message).raw_body),
                remaining(final(message).raw_body),
                r,
            ),
            final(message).header == old(message).header,
    {
        if 0x54 == message.header.message_type {
            deserialize_body(&mut message.raw_body)
        } else {
            assert(remaining(message.raw_body).skip(0) =~= remaining(message.raw_body));
            Err(Error::UnexpectedMessage)
        }
    }
}

/// The result of `try_from` holds a message, which no function of
/// specifications can build: what `try_from` gives is stated on `try_from`.
impl TryFromSpecImpl<&mut RawBackendMessage> for RowDescription {
    open spec fn obeys_try_from_spec() -> bool {
        false
    }

    open spec fn try_from_spec(message: &mut RawBackendMessage) -> Result<RowDescription, Error> {
        Err(Error::UnexpectedMessage)
    }
}

} // verus!
