//! The protocol of a backend, for one connection.
//!
//! A connection starts with the startup message of the frontend. The backend
//! asks for a password hashed with MD5, and the embedding program decides on
//! the password that comes back. After that the frontend sends queries, one
//! at a time, and the embedding program executes each.
//!
//! ```text
//! Startup        --StartupMessage-->  AwaitAuth        asks for a salt
//! AwaitAuth      --salt------------>  AwaitPassword    sends AuthenticationMD5Password
//! AwaitPassword  --PasswordMessage->  Authenticating   asks for the verdict
//! Authenticating --accepted-------->  ReadyForQuery    sends AuthenticationOk,
//!                                                      ParameterStatus, ReadyForQuery
//! Authenticating --rejected-------->  Closed           sends ErrorResponse
//! ReadyForQuery  --Query----------->  Executing        asks for the execution
//! Executing      --result---------->  ReadyForQuery    sends RowDescription, DataRow*,
//!                                                      CommandComplete, ReadyForQuery
//! Executing      --failure--------->  ReadyForQuery    sends ErrorResponse, ReadyForQuery
//! ```
//!
//! `Terminate` closes the connection wherever a message is awaited. Any other
//! message that is not the one awaited is answered with an `ErrorResponse`,
//! and the connection is closed.

use crate::buffer::{new_buffer, remaining, written, written_len};
use crate::error::{Error, Flaw};
use crate::handler::{
    fixed_text, frame, frame_kinds, is_user_name, kinds_then, lemma_frame_kinds_step,
    message_frame, put_message, user_name,
};
use crate::libpq_types::cstring::nul_free;
use crate::libpq_types::elements::{elements_encoding, values_of};
use crate::libpq_types::{Byte4, CString};
use crate::message::authentication::{AuthenticationMD5Password, AuthenticationOk};
use crate::message::backend::{
    CommandComplete, DataRow, ErrorMessage, ErrorResponse, ParameterStatus, ReadyForQuery,
    RowDescription, TransactionIndicator,
};
use crate::message::frontend::{startup_decoding, PasswordMessage, Query, StartupMessage};
use crate::message::kinds::RequestMessageKind;
use crate::message::raw::{typed_decoding, RawFrontendMessage, RawRequest};
use crate::message::header::MessageBody;
use crate::wire::Wire;
use bytes::BytesMut;
use vstd::pervasive::unreached;
use vstd::prelude::*;
use vstd::utf8::encode_utf8;

verus! {

/// Where a connection stands.
#[derive(Debug, Clone, Copy, PartialEq, Eq, Structural)]
pub enum State {
    /// Nothing was received yet: the startup message is awaited.
    Startup,
    /// The startup message came, and the backend is about to ask for a
    /// password.
    AwaitAuth,
    /// The backend asked for a password, and awaits it.
    AwaitPassword,
    /// The password came, and the embedding program decides on it.
    Authenticating,
    /// The backend awaits a query.
    ReadyForQuery,
    /// A query came, and the embedding program executes it.
    Executing,
    /// The connection is over.
    Closed,
}

/// What happened on a connection, as its worker tells the protocol.
#[derive(Debug)]
pub enum Event {
    /// A request was read. The worker reads requests while the connection is
    /// in the state `Startup`.
    Request(RawRequest),
    /// A frame was read. The worker reads frames in all other states.
    Message(RawFrontendMessage),
    /// The worker chose the salt of the connection: four bytes at random.
    Salt(Byte4),
    /// The embedding program decided on the password: `true` if it lets the
    /// frontend in.
    Verdict(bool),
    /// The embedding program executed the query.
    Executed { description: RowDescription, rows: Vec<DataRow>, command_tag: String },
    /// The embedding program could not execute the query.
    ExecutorFailed,
}

/// What the worker of a connection does once it has written and flushed the
/// output of a step.
#[derive(Debug)]
pub enum Next {
    /// Read what the frontend sends next, and hand it over.
    Receive,
    /// Choose four bytes at random, and hand them over as the salt.
    ChooseSalt,
    /// Ask the embedding program whether to let the frontend in, which sent
    /// this password, and hand the verdict over.
    Authenticate { password: CString },
    /// Have the embedding program execute this query, and hand the result
    /// over.
    Execute { query: CString },
    /// Close the connection.
    Close,
}

/// What a step of the protocol asks of the worker.
#[derive(Debug)]
pub struct Reply {
    /// The bytes to write to the frontend, and to flush.
    pub output: BytesMut,
    /// What to do after that.
    pub next: Next,
    /// What went wrong, where the step ends the connection or an operation
    /// for a fault.
    pub error: Option<Error>,
}

/// The protocol of a backend on one connection.
#[derive(Debug)]
pub struct Backend {
    state: State,
    salt: Byte4,
    parameters: Vec<ParameterStatus>,
}

/// A connection, as the contracts see it.
pub struct BackendView {
    pub state: State,
    /// The salt that the frontend is asked to hash its password with. Until
    /// one is chosen it is four zero bytes.
    pub salt: Seq<u8>,
    /// The parameters that the frontend asked for in its startup message,
    /// each a name and a value.
    pub parameters: Seq<(Seq<u8>, Seq<u8>)>,
}

/// An event, as the contracts see it.
pub enum EventView {
    Request { kind: RequestMessageKind, body: Seq<u8> },
    Message { message_type: u8, body: Seq<u8> },
    Salt(Seq<u8>),
    Verdict(bool),
    Executed {
        description: <RowDescription as Wire>::Value,
        rows: Seq<<DataRow as Wire>::Value>,
        command_tag: Seq<u8>,
    },
    ExecutorFailed,
}

/// What the worker does next, as the contracts see it.
pub enum NextView {
    Receive,
    ChooseSalt,
    Authenticate { password: Seq<u8> },
    Execute { query: Seq<u8> },
    Close,
}

/// A reply, as the contracts see it.
pub struct ReplyView {
    pub output: Seq<u8>,
    pub next: NextView,
    pub error: Option<Error>,
}

impl View for Backend {
    type V = BackendView;

    closed spec fn view(&self) -> BackendView {
        BackendView {
            state: self.state,
            salt: self.salt@,
            parameters: values_of(self.parameters@),
        }
    }
}

impl View for Event {
    type V = EventView;

    open spec fn view(&self) -> EventView {
        match self {
            Event::Request(request) => EventView::Request {
                kind: request.request_kind,
                body: remaining(request.raw_body),
            },
            Event::Message(message) => EventView::Message {
                message_type: message.header.message_type,
                body: remaining(message.raw_body),
            },
            Event::Salt(salt) => EventView::Salt(salt@),
            Event::Verdict(accepted) => EventView::Verdict(*accepted),
            Event::Executed { description, rows, command_tag } => EventView::Executed {
                description: description.value(),
                rows: values_of(rows@),
                command_tag: encode_utf8(command_tag@),
            },
            Event::ExecutorFailed => EventView::ExecutorFailed,
        }
    }
}

impl View for Next {
    type V = NextView;

    open spec fn view(&self) -> NextView {
        match self {
            Next::Receive => NextView::Receive,
            Next::ChooseSalt => NextView::ChooseSalt,
            Next::Authenticate { password } => NextView::Authenticate { password: password@ },
            Next::Execute { query } => NextView::Execute { query: query@ },
            Next::Close => NextView::Close,
        }
    }
}

impl View for Reply {
    type V = ReplyView;

    open spec fn view(&self) -> ReplyView {
        ReplyView { output: written(self.output), next: self.next@, error: self.error }
    }
}

/// The kind byte of `Terminate`, with which a frontend ends a connection.
pub open spec fn terminate() -> u8 {
    0x58
}

/// The code of the field of an error response that holds the message to show.
pub open spec fn message_field() -> u8 {
    0x4d
}

/// The byte that says of a backend that it is in no transaction.
pub open spec fn idle() -> u8 {
    0x49
}

/// The text with which a backend turns credentials down.
pub open spec fn auth_failed_text() -> Seq<u8> {
    encode_utf8("Incorrect password or user"@)
}

/// The text with which a backend answers a message that it did not await.
pub open spec fn violation_text() -> Seq<u8> {
    encode_utf8("Protocol violation"@)
}

/// The text with which a backend answers a query that could not be executed.
pub open spec fn query_failed_text() -> Seq<u8> {
    encode_utf8("Query failed"@)
}

/// The name of the one parameter that a backend reports.
pub open spec fn server_version_name() -> Seq<u8> {
    encode_utf8("server_version"@)
}

/// The value of the one parameter that a backend reports.
pub open spec fn server_version_value() -> Seq<u8> {
    encode_utf8("0.1 (fakepostmaster)"@)
}

/// The frame of an error response whose one field is the message `text`.
pub open spec fn error_frame(text: Seq<u8>) -> Seq<u8> {
    message_frame::<ErrorResponse>(seq![(message_field(), text)])
}

/// The frame that tells the frontend that the backend is ready and idle.
pub open spec fn ready_frame() -> Seq<u8> {
    message_frame::<ReadyForQuery>(idle())
}

/// What a backend sends to a frontend that it lets in.
pub open spec fn welcome() -> Seq<u8> {
    message_frame::<AuthenticationOk>(0i32) + message_frame::<ParameterStatus>(
        (server_version_name(), server_version_value()),
    ) + ready_frame()
}

/// The frames of the rows `rows`, one after the other.
pub open spec fn rows_frames(rows: Seq<<DataRow as Wire>::Value>) -> Seq<u8>
    decreases rows.len(),
{
    if rows.len() == 0 {
        Seq::empty()
    } else {
        rows_frames(rows.drop_last()) + message_frame::<DataRow>(rows.last())
    }
}

/// What a backend sends for the result of a query: the description of the
/// rows, each row, the tag of the command, and that it is ready again.
pub open spec fn query_reply(
    description: <RowDescription as Wire>::Value,
    rows: Seq<<DataRow as Wire>::Value>,
    command_tag: Seq<u8>,
) -> Seq<u8> {
    message_frame::<RowDescription>(description) + rows_frames(rows) + message_frame::<
        CommandComplete,
    >(command_tag) + ready_frame()
}

/// Whether a body fits in a frame, whose length is a signed 32-bit integer
/// that counts its own four bytes too.
pub open spec fn fits(body: Seq<u8>) -> bool {
    body.len() + 4 <= i32::MAX
}

/// Whether each row of `rows` fits in a frame.
pub open spec fn rows_fit(rows: Seq<<DataRow as Wire>::Value>) -> bool {
    forall|i: int| 0 <= i < rows.len() ==> fits(#[trigger] DataRow::encoding(rows[i]))
}

/// Whether the result of a query can be sent: the tag holds no zero byte,
/// each message fits in a frame, and all the frames fit in one buffer.
pub open spec fn result_fits(
    description: <RowDescription as Wire>::Value,
    rows: Seq<<DataRow as Wire>::Value>,
    command_tag: Seq<u8>,
) -> bool {
    &&& nul_free(command_tag)
    &&& fits(RowDescription::encoding(description))
    &&& rows_fit(rows)
    &&& fits(CommandComplete::encoding(command_tag))
    &&& query_reply(description, rows, command_tag).len() <= isize::MAX
}

/// The connection `before` in the state `state`.
pub open spec fn moved(before: BackendView, state: State) -> BackendView {
    BackendView { state, salt: before.salt, parameters: before.parameters }
}

/// The reply that writes `output` and then awaits what the frontend sends.
pub open spec fn say(output: Seq<u8>) -> ReplyView {
    ReplyView { output, next: NextView::Receive, error: None }
}

/// The step that ends a connection without a word.
pub open spec fn hang_up(before: BackendView, error: Option<Error>) -> (BackendView, ReplyView) {
    (
        moved(before, State::Closed),
        ReplyView { output: Seq::empty(), next: NextView::Close, error },
    )
}

/// The step that ends a connection over the fault `error` of the frontend.
pub open spec fn refuse(before: BackendView, text: Seq<u8>, error: Error) -> (
    BackendView,
    ReplyView,
) {
    (
        moved(before, State::Closed),
        ReplyView { output: error_frame(text), next: NextView::Close, error: Some(error) },
    )
}

/// Whether one of the parameters `parameters` tells the user.
pub open spec fn names_user(parameters: Seq<(Seq<u8>, Seq<u8>)>) -> bool {
    exists|i: int| 0 <= i < parameters.len() && (#[trigger] parameters[i]).0 == user_name()
}

/// What a connection that awaits the startup message does with a request.
/// The startup message must name the user.
pub open spec fn on_request(before: BackendView, kind: RequestMessageKind, body: Seq<u8>) -> (
    BackendView,
    ReplyView,
) {
    match startup_decoding(kind, body).outcome {
        Ok(startup) => if names_user(startup.1) {
            (
                BackendView { state: State::AwaitAuth, salt: before.salt, parameters: startup.1 },
                ReplyView { output: Seq::empty(), next: NextView::ChooseSalt, error: None },
            )
        } else {
            refuse(before, violation_text(), Error::Malformed(Flaw::MissingUser))
        },
        Err(e) => refuse(before, violation_text(), e),
    }
}

/// What a connection that is about to ask for a password does with the salt
/// that was chosen for it.
pub open spec fn on_salt(before: BackendView, salt: Seq<u8>) -> (BackendView, ReplyView) {
    (
        BackendView { state: State::AwaitPassword, salt, parameters: before.parameters },
        say(message_frame::<AuthenticationMD5Password>((5i32, salt))),
    )
}

/// What a connection that awaits a password does with a frame.
pub open spec fn on_password(before: BackendView, message_type: u8, body: Seq<u8>) -> (
    BackendView,
    ReplyView,
) {
    if message_type == terminate() {
        hang_up(before, None)
    } else {
        match typed_decoding::<PasswordMessage>(message_type, body).outcome {
            Ok(password) => (
                moved(before, State::Authenticating),
                ReplyView {
                    output: Seq::empty(),
                    next: NextView::Authenticate { password },
                    error: None,
                },
            ),
            Err(e) => refuse(before, violation_text(), e),
        }
    }
}

/// What a connection does with the verdict on a password.
pub open spec fn on_verdict(before: BackendView, accepted: bool) -> (BackendView, ReplyView) {
    if accepted {
        (moved(before, State::ReadyForQuery), say(welcome()))
    } else {
        refuse(before, auth_failed_text(), Error::AuthFailed)
    }
}

/// What a connection that awaits a query does with a frame.
pub open spec fn on_query(before: BackendView, message_type: u8, body: Seq<u8>) -> (
    BackendView,
    ReplyView,
) {
    if message_type == terminate() {
        hang_up(before, None)
    } else {
        match typed_decoding::<Query>(message_type, body).outcome {
            Ok(query) => (
                moved(before, State::Executing),
                ReplyView { output: Seq::empty(), next: NextView::Execute { query }, error: None },
            ),
            Err(e) => refuse(before, violation_text(), e),
        }
    }
}

/// What a connection does where a query could not be executed, or its result
/// cannot be sent: it reports a fault and is ready again.
pub open spec fn on_failure(before: BackendView, error: Option<Error>) -> (
    BackendView,
    ReplyView,
) {
    (
        moved(before, State::ReadyForQuery),
        ReplyView {
            output: error_frame(query_failed_text()) + ready_frame(),
            next: NextView::Receive,
            error,
        },
    )
}

/// What a connection does with the result of a query.
pub open spec fn on_result(
    before: BackendView,
    description: <RowDescription as Wire>::Value,
    rows: Seq<<DataRow as Wire>::Value>,
    command_tag: Seq<u8>,
) -> (BackendView, ReplyView) {
    if result_fits(description, rows, command_tag) {
        (
            moved(before, State::ReadyForQuery),
            say(query_reply(description, rows, command_tag)),
        )
    } else if nul_free(command_tag) {
        on_failure(before, Some(Error::Malformed(Flaw::TooLarge)))
    } else {
        on_failure(before, Some(Error::Malformed(Flaw::InteriorNul)))
    }
}

/// The protocol: what a connection becomes when an event happens, and what
/// its worker is asked to do. An event that the state of the connection does
/// not allow for ends the connection.
pub open spec fn transition(before: BackendView, event: EventView) -> (BackendView, ReplyView) {
    match (before.state, event) {
        (State::Closed, _) => hang_up(before, None),
        (State::Startup, EventView::Request { kind, body }) => on_request(before, kind, body),
        (State::AwaitAuth, EventView::Salt(salt)) => on_salt(before, salt),
        (State::AwaitPassword, EventView::Message { message_type, body }) => on_password(
            before,
            message_type,
            body,
        ),
        (State::Authenticating, EventView::Verdict(accepted)) => on_verdict(before, accepted),
        (State::ReadyForQuery, EventView::Message { message_type, body }) => on_query(
            before,
            message_type,
            body,
        ),
        (State::Executing, EventView::Executed { description, rows, command_tag }) => on_result(
            before,
            description,
            rows,
            command_tag,
        ),
        (State::Executing, EventView::ExecutorFailed) => on_failure(before, None),
        _ => hang_up(before, Some(Error::UnexpectedMessage)),
    }
}

/// An error response with one field takes three bytes more than its text:
/// the code, the terminator of the text and the terminator of the fields.
pub proof fn lemma_error_response_length(code: u8, text: Seq<u8>)
    ensures
        ErrorResponse::encoding(seq![(code, text)]).len() == text.len() + 3,
{
    let fields = seq![(code, text)];
    assert(fields.drop_last() =~= Seq::empty());
    assert(elements_encoding::<ErrorMessage>(fields.drop_last()) =~= Seq::<u8>::empty());
}

/// The frames of the first `i + 1` rows are those of the first `i` followed
/// by the frame of the row at `i`.
proof fn lemma_rows_frames_step(rows: Seq<<DataRow as Wire>::Value>, i: int)
    requires
        0 <= i < rows.len(),
    ensures
        rows_frames(rows.take(i + 1)) == rows_frames(rows.take(i)) + message_frame::<DataRow>(
            rows[i],
        ),
{
    assert(rows.take(i + 1).drop_last() =~= rows.take(i));
}

/// Whether one of the parameters `parameters` tells the user.
fn tells_user(parameters: &Vec<ParameterStatus>) -> (b: bool)
    ensures
        b == names_user(values_of(parameters@)),
{
    let mut i: usize = 0;
    while i < parameters.len()
        invariant
            i <= parameters@.len(),
            forall|j: int| 0 <= j < i ==> (#[trigger] values_of(parameters@)[j]).0 != user_name(),
        decreases parameters@.len() - i,
    {
        if is_user_name(parameters[i].name.as_bytes()) {
            assert(values_of(parameters@)[i as int].0 == user_name());
            return true;
        }
        i = i + 1;
    }
    false
}

/// Appends to `buffer` the frame of an error response whose one field is the
/// message `text`.
fn put_error(buffer: &mut BytesMut, text: CString)
    requires
        text@.len() + 7 <= i32::MAX,
        written(*old(buffer)).len() + text@.len() + 8 <= isize::MAX,
    ensures
        written(*final(buffer)) == written(*old(buffer)) + error_frame(text@),
{
    let ghost words = text@;
    let mut fields: Vec<ErrorMessage> = Vec::new();
    fields.push(ErrorMessage { code: 0x4d, message: text });
    let response = ErrorResponse::new(fields);
    proof {
        assert(response.value() =~= seq![(message_field(), words)]);
        lemma_error_response_length(message_field(), words);
    }
    match put_message(buffer, &response) {
        Ok(()) => {},
        Err(_) => unreached(),
    }
}

/// Appends to `buffer` the frame that tells the frontend that the backend is
/// ready and idle.
fn put_ready(buffer: &mut BytesMut)
    requires
        written(*old(buffer)).len() + 6 <= isize::MAX,
    ensures
        written(*final(buffer)) == written(*old(buffer)) + ready_frame(),
{
    match put_message(buffer, &ReadyForQuery::new(TransactionIndicator::Idle)) {
        Ok(()) => {},
        Err(_) => unreached(),
    }
}

/// Appends to `buffer` the frames of the rows `rows`, where they can be sent.
fn put_rows(buffer: &mut BytesMut, rows: &Vec<DataRow>) -> (r: Result<(), Error>)
    ensures
        match r {
            Ok(()) => rows_fit(values_of(rows@)) && written(*final(buffer)) == written(
                *old(buffer),
            ) + rows_frames(values_of(rows@)),
            Err(e) => e == Error::Malformed(Flaw::TooLarge) && (!rows_fit(values_of(rows@))
                || written(*old(buffer)).len() + rows_frames(values_of(rows@)).len()
                > isize::MAX),
        },
{
    let ghost values = values_of(rows@);
    let ghost before = written(*buffer);
    let mut i: usize = 0;
    assert(written(*buffer) =~= before + rows_frames(values.take(0)));
    while i < rows.len()
        invariant
            i <= rows@.len(),
            values == values_of(rows@),
            before == written(*old(buffer)),
            written(*buffer) == before + rows_frames(values.take(i as int)),
            rows_fit(values.take(i as int)),
        decreases rows@.len() - i,
    {
        let ghost sent = rows_frames(values.take(i as int));
        let ghost row = message_frame::<DataRow>(values[i as int]);
        proof {
            lemma_rows_frames_step(values, i as int);
            lemma_rows_frames_prefix(values, i as int + 1);
            assert(rows[i as int].value() == values[i as int]);
        }
        match put_message(buffer, &rows[i]) {
            Ok(()) => {
                assert(written(*buffer) =~= before + (sent + row));
                assert(rows_fit(values.take(i + 1))) by {
                    assert forall|j: int| 0 <= j < i + 1 implies fits(
                        #[trigger] DataRow::encoding(values.take(i + 1)[j]),
                    ) by {
                        if j < i {
                            assert(values.take(i + 1)[j] == values.take(i as int)[j]);
                        }
                    }
                }
            },
            Err(e) => {
                assert(!fits(DataRow::encoding(values[i as int])) || before.len() + (sent
                    + row).len() > isize::MAX);
                return Err(e);
            },
        }
        i = i + 1;
    }
    assert(values.take(i as int) =~= values);
    Ok(())
}

/// The frame that tells the frontend that the backend is ready takes six
/// bytes.
proof fn lemma_ready_frame_length()
    ensures
        ready_frame().len() == 6,
{
}

/// The frames of the result of a query, where they can be sent.
fn put_result(description: &RowDescription, rows: &Vec<DataRow>, command_tag: String) -> (r:
    Result<BytesMut, Error>)
    ensures
        match r {
            Ok(output) => result_fits(
                description.value(),
                values_of(rows@),
                encode_utf8(command_tag@),
            ) && written(output) == query_reply(
                description.value(),
                values_of(rows@),
                encode_utf8(command_tag@),
            ),
            Err(e) => !result_fits(
                description.value(),
                values_of(rows@),
                encode_utf8(command_tag@),
            ) && e == (if nul_free(encode_utf8(command_tag@)) {
                Error::Malformed(Flaw::TooLarge)
            } else {
                Error::Malformed(Flaw::InteriorNul)
            }),
        },
{
    let ghost values = values_of(rows@);
    let ghost tag = encode_utf8(command_tag@);
    let complete = CommandComplete::new(command_tag)?;
    let ghost head = message_frame::<RowDescription>(description.value());
    let ghost body = rows_frames(values);
    let ghost tail = message_frame::<CommandComplete>(tag);
    let ghost ready = ready_frame();
    let ghost reply = query_reply(description.value(), values, tag);
    proof {
        lemma_ready_frame_length();
        assert(reply == head + body + tail + ready);
        assert(reply.len() == head.len() + body.len() + tail.len() + 6);
        assert(complete.value() == tag);
    }
    let mut output = new_buffer();
    put_message(&mut output, description)?;
    assert(written(output) =~= head);
    put_rows(&mut output, rows)?;
    assert(written(output) == head + body);
    put_message(&mut output, &complete)?;
    assert(written(output) == head + body + tail);
    if written_len(&output) > isize::MAX as usize - 6 {
        return Err(Error::Malformed(Flaw::TooLarge));
    }
    put_ready(&mut output);
    Ok(output)
}

/// The frames of the first `n` rows are no longer than those of all rows.
proof fn lemma_rows_frames_prefix(rows: Seq<<DataRow as Wire>::Value>, n: int)
    requires
        0 <= n <= rows.len(),
    ensures
        rows_frames(rows.take(n)).len() <= rows_frames(rows).len(),
    decreases rows.len() - n,
{
    if n < rows.len() {
        lemma_rows_frames_step(rows, n);
        lemma_rows_frames_prefix(rows, n + 1);
    } else {
        assert(rows.take(n) =~= rows);
    }
}

impl Backend {
    /// The protocol for a connection that was just accepted.
    pub fn new() -> (backend: Self)
        ensures
            backend@ == (BackendView {
                state: State::Startup,
                salt: seq![0u8, 0u8, 0u8, 0u8],
                parameters: Seq::empty(),
            }),
    {
        let backend = Backend { state: State::Startup, salt: [0, 0, 0, 0], parameters: Vec::new() };
        assert(backend@.parameters =~= Seq::empty());
        assert(backend@.salt =~= seq![0u8, 0u8, 0u8, 0u8]);
        backend
    }

    /// The salt that the frontend was asked to hash its password with.
    pub fn salt(&self) -> (salt: Byte4)
        ensures
            salt@ == self@.salt,
    {
        self.salt
    }

    /// Where the connection stands.
    pub fn state(&self) -> (state: State)
        ensures
            state == self@.state,
    {
        self.state
    }

    /// The parameters that the frontend asked for in its startup message.
    pub fn parameters(&self) -> (parameters: &Vec<ParameterStatus>)
        ensures
            values_of(parameters@) == self@.parameters,
    {
        &self.parameters
    }

    /// Ends the connection without a word.
    fn hang_up(&mut self, error: Option<Error>) -> (reply: Reply)
        ensures
            (final(self)@, reply@) == hang_up(old(self)@, error),
    {
        self.state = State::Closed;
        Reply { output: new_buffer(), next: Next::Close, error }
    }

    /// Ends the connection over a fault of the frontend.
    fn refuse(&mut self, text: CString, error: Error) -> (reply: Reply)
        requires
            text@.len() <= 100,
        ensures
            (final(self)@, reply@) == refuse(old(self)@, text@, error),
    {
        let mut output = new_buffer();
        put_error(&mut output, text);
        assert(written(output) =~= error_frame(text@));
        self.state = State::Closed;
        Reply { output, next: Next::Close, error: Some(error) }
    }

    /// Ends the connection over a message that was not awaited.
    fn violation(&mut self, error: Error) -> (reply: Reply)
        ensures
            (final(self)@, reply@) == refuse(old(self)@, violation_text(), error),
    {
        proof {
            reveal_strlit("Protocol violation");
        }
        self.refuse(fixed_text("Protocol violation"), error)
    }

    /// Reports that a query failed, and is ready again.
    fn failure(&mut self, error: Option<Error>) -> (reply: Reply)
        ensures
            (final(self)@, reply@) == on_failure(old(self)@, error),
    {
        proof {
            reveal_strlit("Query failed");
        }
        let mut output = new_buffer();
        put_error(&mut output, fixed_text("Query failed"));
        proof {
            lemma_error_response_length(message_field(), query_failed_text());
        }
        put_ready(&mut output);
        assert(written(output) =~= error_frame(query_failed_text()) + ready_frame());
        self.state = State::ReadyForQuery;
        Reply { output, next: Next::Receive, error }
    }

    /// Lets the frontend in.
    fn welcome(&mut self) -> (reply: Reply)
        ensures
            (final(self)@, reply@) == (moved(old(self)@, State::ReadyForQuery), say(welcome())),
    {
        proof {
            reveal_strlit("server_version");
            reveal_strlit("0.1 (fakepostmaster)");
        }
        let status = ParameterStatus {
            name: fixed_text("server_version"),
            value: fixed_text("0.1 (fakepostmaster)"),
        };
        let mut output = new_buffer();
        match put_message(&mut output, &AuthenticationOk::new()) {
            Ok(()) => {},
            Err(_) => unreached(),
        }
        match put_message(&mut output, &status) {
            Ok(()) => {},
            Err(_) => unreached(),
        }
        put_ready(&mut output);
        assert(written(output) =~= welcome());
        self.state = State::ReadyForQuery;
        Reply { output, next: Next::Receive, error: None }
    }

    /// Takes the connection one step on: tells the protocol what happened,
    /// and learns what to write and what to do next.
    pub fn step(&mut self, event: Event) -> (reply: Reply)
        ensures
            (final(self)@, reply@) == transition(old(self)@, event@),
    {
        match self.state {
            State::Closed => self.hang_up(None),
            State::Startup => match event {
                Event::Request(mut request) => match StartupMessage::try_from(&mut request) {
                    Ok(startup) => {
                        if !tells_user(startup.parameters.as_ref()) {
                            return self.violation(Error::Malformed(Flaw::MissingUser));
                        }
                        self.parameters = startup.parameters.into_vec();
                        self.state = State::AwaitAuth;
                        Reply { output: new_buffer(), next: Next::ChooseSalt, error: None }
                    },
                    Err(e) => self.violation(e),
                },
                _ => self.hang_up(Some(Error::UnexpectedMessage)),
            },
            State::AwaitAuth => match event {
                Event::Salt(salt) => {
                    let mut output = new_buffer();
                    match put_message(&mut output, &AuthenticationMD5Password::new(salt)) {
                        Ok(()) => {},
                        Err(_) => unreached(),
                    }
                    assert(written(output) =~= message_frame::<AuthenticationMD5Password>(
                        (5i32, salt@),
                    ));
                    self.salt = salt;
                    self.state = State::AwaitPassword;
                    Reply { output, next: Next::Receive, error: None }
                },
                _ => self.hang_up(Some(Error::UnexpectedMessage)),
            },
            State::AwaitPassword => match event {
                Event::Message(mut message) => {
                    if message.header.message_type == 0x58 {
                        self.hang_up(None)
                    } else {
                        match PasswordMessage::try_from(&mut message) {
                            Ok(answer) => {
                                self.state = State::Authenticating;
                                Reply {
                                    output: new_buffer(),
                                    next: Next::Authenticate { password: answer.password },
                                    error: None,
                                }
                            },
                            Err(e) => self.violation(e),
                        }
                    }
                },
                _ => self.hang_up(Some(Error::UnexpectedMessage)),
            },
            State::Authenticating => match event {
                Event::Verdict(accepted) => {
                    if accepted {
                        self.welcome()
                    } else {
                        proof {
                            reveal_strlit("Incorrect password or user");
                        }
                        self.refuse(fixed_text("Incorrect password or user"), Error::AuthFailed)
                    }
                },
                _ => self.hang_up(Some(Error::UnexpectedMessage)),
            },
            State::ReadyForQuery => match event {
                Event::Message(mut message) => {
                    if message.header.message_type == 0x58 {
                        self.hang_up(None)
                    } else {
                        match Query::try_from(&mut message) {
                            Ok(asked) => {
                                self.state = State::Executing;
                                Reply {
                                    output: new_buffer(),
                                    next: Next::Execute { query: asked.query },
                                    error: None,
                                }
                            },
                            Err(e) => self.violation(e),
                        }
                    }
                },
                _ => self.hang_up(Some(Error::UnexpectedMessage)),
            },
            State::Executing => match event {
                Event::Executed { description, rows, command_tag } => {
                    match put_result(&description, &rows, command_tag) {
                        Ok(output) => {
                            self.state = State::ReadyForQuery;
                            Reply { output, next: Next::Receive, error: None }
                        },
                        Err(e) => self.failure(Some(e)),
                    }
                },
                Event::ExecutorFailed => self.failure(None),
                _ => self.hang_up(Some(Error::UnexpectedMessage)),
            },
        }
    }
}

/// The kind byte `kind`, `n` times.
pub open spec fn repeated(kind: u8, n: nat) -> Seq<u8> {
    Seq::new(n, |i: int| kind)
}

/// The frames of rows, where each row fits in a frame, are as many frames of
/// the kind `D` as there are rows.
pub proof fn lemma_rows_frames_kinds(rows: Seq<<DataRow as Wire>::Value>, rest: Seq<u8>)
    requires
        rows_fit(rows),
    ensures
        frame_kinds(rows_frames(rows) + rest) == kinds_then(
            repeated(DataRow::kind(), rows.len()),
            frame_kinds(rest),
        ),
    decreases rows.len(),
{
    if rows.len() == 0 {
        assert(rows_frames(rows) + rest =~= rest);
        if frame_kinds(rest) is Some {
            assert(repeated(DataRow::kind(), 0) + frame_kinds(rest)->Some_0 =~= frame_kinds(
                rest,
            )->Some_0);
        }
    } else {
        let front = rows.drop_last();
        let last = message_frame::<DataRow>(rows.last());
        assert(rows_fit(front)) by {
            assert forall|i: int| 0 <= i < front.len() implies fits(
                #[trigger] DataRow::encoding(front[i]),
            ) by {
                assert(front[i] == rows[i]);
            }
        }
        assert(fits(DataRow::encoding(rows[rows.len() - 1])));
        assert(rows_frames(rows) + rest =~= rows_frames(front) + (last + rest));
        lemma_rows_frames_kinds(front, last + rest);
        lemma_frame_kinds_step(DataRow::kind(), DataRow::encoding(rows.last()), rest);
        if frame_kinds(rest) is Some {
            let others = frame_kinds(rest)->Some_0;
            assert(repeated(DataRow::kind(), front.len()) + (seq![DataRow::kind()] + others)
                =~= repeated(DataRow::kind(), rows.len()) + others);
        }
    }
}

/// The kind bytes of the frames with which a backend answers a query: `T`,
/// then `D` for each row, then `C`, then `Z`.
pub open spec fn query_reply_kinds(rows: nat) -> Seq<u8> {
    seq![RowDescription::kind()] + repeated(DataRow::kind(), rows) + seq![
        CommandComplete::kind(),
        ReadyForQuery::kind(),
    ]
}

/// What a backend sends for the result of a query is made of exactly these
/// frames, in this order: one `RowDescription`, one `DataRow` for each row,
/// one `CommandComplete`, one `ReadyForQuery`.
pub proof fn lemma_query_reply_order(
    description: <RowDescription as Wire>::Value,
    rows: Seq<<DataRow as Wire>::Value>,
    command_tag: Seq<u8>,
)
    requires
        result_fits(description, rows, command_tag),
    ensures
        frame_kinds(query_reply(description, rows, command_tag)) == Some(
            query_reply_kinds(rows.len()),
        ),
{
    let reply = query_reply(description, rows, command_tag);
    let ready = ready_frame();
    let tail = message_frame::<CommandComplete>(command_tag) + ready;
    let body = rows_frames(rows) + tail;
    assert(reply =~= frame(RowDescription::kind(), RowDescription::encoding(description)) + body);
    lemma_frame_kinds_step(RowDescription::kind(), RowDescription::encoding(description), body);
    lemma_rows_frames_kinds(rows, tail);
    lemma_frame_kinds_step(CommandComplete::kind(), CommandComplete::encoding(command_tag), ready);
    assert(ready =~= frame(ReadyForQuery::kind(), ReadyForQuery::encoding(idle())) + Seq::<
        u8,
    >::empty());
    lemma_frame_kinds_step(ReadyForQuery::kind(), ReadyForQuery::encoding(idle()), Seq::empty());
    assert(frame_kinds(ready) == Some(seq![ReadyForQuery::kind()])) by {
        assert(seq![ReadyForQuery::kind()] + Seq::<u8>::empty() =~= seq![ReadyForQuery::kind()]);
    }
    assert(frame_kinds(tail) == Some(seq![CommandComplete::kind(), ReadyForQuery::kind()])) by {
        assert(seq![CommandComplete::kind()] + seq![ReadyForQuery::kind()] =~= seq![
            CommandComplete::kind(),
            ReadyForQuery::kind(),
        ]);
    }
    assert(seq![RowDescription::kind()] + (repeated(DataRow::kind(), rows.len()) + seq![
        CommandComplete::kind(),
        ReadyForQuery::kind(),
    ]) =~= query_reply_kinds(rows.len()));
}

/// Where a backend that executes a query is handed a result that can be
/// sent, it goes back to awaiting a query, and writes one `RowDescription`,
/// one `DataRow` for each row, one `CommandComplete` and one `ReadyForQuery`,
/// in this order.
pub proof fn lemma_simple_query_order(
    before: BackendView,
    description: <RowDescription as Wire>::Value,
    rows: Seq<<DataRow as Wire>::Value>,
    command_tag: Seq<u8>,
)
    requires
        before.state == State::Executing,
        result_fits(description, rows, command_tag),
    ensures
        ({
            let (after, reply) = transition(
                before,
                EventView::Executed { description, rows, command_tag },
            );
            &&& after.state == State::ReadyForQuery
            &&& reply.next == NextView::Receive
            &&& frame_kinds(reply.output) == Some(query_reply_kinds(rows.len()))
        }),
{
    lemma_query_reply_order(description, rows, command_tag);
}

} // verus!
