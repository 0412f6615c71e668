//! The protocol of a frontend, for one connection.
//!
//! A frontend opens the connection with a startup message, answers the
//! request for a password hashed with MD5, and takes in what the backend
//! reports of the session. After that it sends queries, one at a time, and
//! takes in the result of each.
//!
//! ```text
//! Init          --start----------------->  AwaitAuth      sends StartupMessage
//! AwaitAuth     --AuthenticationMD5----->  AwaitAuthOk    sends PasswordMessage
//! AwaitAuth     --AuthenticationOk------>  AwaitParams
//! AwaitAuthOk   --AuthenticationOk------>  AwaitParams
//! AwaitParams   --ParameterStatus------->  AwaitParams    keeps the parameter
//! AwaitParams   --BackendKeyData-------->  AwaitReady     keeps the key
//! AwaitParams   --ReadyForQuery--------->  ReadyForQuery
//! AwaitReady    --ReadyForQuery--------->  ReadyForQuery
//! ReadyForQuery --query----------------->  AwaitResult    sends Query
//! AwaitResult   --RowDescription-------->  AwaitResult    keeps the description
//! AwaitResult   --DataRow--------------->  AwaitResult    keeps the row
//! AwaitResult   --CommandComplete------->  AwaitResult    keeps the tag
//! AwaitResult   --ReadyForQuery--------->  ReadyForQuery
//! ```
//!
//! An `ErrorResponse` ends the operation under way, wherever a frame is
//! awaited. The connection stays open, and the next `ReadyForQuery` makes the
//! frontend ready again. Any other frame that is not one of those awaited
//! ends the connection.

use crate::buffer::{new_buffer, remaining, written};
use crate::error::{Error, Flaw};
use crate::handler::{
    fixed_text, message_fits, message_frame, put_message, put_request, request_fits,
    request_frame, user_name,
};
use crate::libpq_types::cstring::nul_free;
use crate::libpq_types::elements::values_of;
use crate::libpq_types::CString;
use crate::message::authentication::{AuthenticationMD5Password, AuthenticationOk};
use crate::message::backend::{
    BackendKeyData, CommandComplete, DataRow, ErrorResponse, ParameterStatus, ReadyForQuery,
    RowDescription,
};
use crate::message::frontend::{PasswordMessage, ProtocolVersion, Query, StartupMessage};
use crate::message::kinds::AuthenticationMessageKind;
use crate::message::raw::{auth_decoding, auth_kind_of, typed_decoding, RawBackendMessage};
use crate::password::md5_password;
use crate::message::header::MessageBody;
use crate::wire::Wire;
use bytes::BytesMut;
use vstd::prelude::*;
use vstd::utf8::encode_utf8;

verus! {

/// Where a connection stands.
#[derive(Debug, Clone, Copy, PartialEq, Eq, Structural)]
pub enum State {
    /// Nothing was sent yet.
    Init,
    /// The startup message was sent, and an authentication message is
    /// awaited.
    AwaitAuth,
    /// The password was sent, and the verdict of the backend is awaited.
    AwaitAuthOk,
    /// The backend let the frontend in, and reports the parameters of the
    /// session.
    AwaitParams,
    /// The backend is awaited to be ready.
    AwaitReady,
    /// The backend awaits a query.
    ReadyForQuery,
    /// A query was sent, and its result is awaited.
    AwaitResult,
    /// The connection is over.
    Failed,
}

/// What happened on a connection, as its worker tells the protocol.
#[derive(Debug)]
pub enum Event {
    /// The connection was opened.
    Start,
    /// The caller asks for a query.
    Query(String),
    /// A frame was read.
    Message(RawBackendMessage),
}

/// What the worker of a connection does once it has written and flushed the
/// output of a step.
#[derive(Debug, Clone, Copy, PartialEq, Eq, Structural)]
pub enum Next {
    /// Read the next frame, and hand it over.
    Receive,
    /// Go back to the caller: the operation is over.
    Return,
    /// Close the connection.
    Close,
}

/// What a step of the protocol asks of the worker.
#[derive(Debug)]
pub struct Reply {
    /// The bytes to write to the backend, and to flush.
    pub output: BytesMut,
    /// What to do after that.
    pub next: Next,
    /// What went wrong, where the step ends the connection or an operation
    /// for a fault.
    pub error: Option<Error>,
}

/// The protocol of a frontend on one connection.
#[derive(Debug)]
pub struct Frontend {
    state: State,
    user: String,
    password: String,
    startup: Vec<ParameterStatus>,
    parameters: Vec<ParameterStatus>,
    key_data: Option<BackendKeyData>,
    description: Option<RowDescription>,
    rows: Vec<DataRow>,
    command_tag: Option<CommandComplete>,
    failure: Option<ErrorResponse>,
}

/// A connection, as the contracts see it.
pub struct FrontendView {
    pub state: State,
    /// The name of the user, as bytes.
    pub user: Seq<u8>,
    /// The password of the user, as bytes.
    pub password: Seq<u8>,
    /// The parameters that the startup message asks for.
    pub startup: Seq<(Seq<u8>, Seq<u8>)>,
    /// The parameters that the backend reported.
    pub parameters: Seq<(Seq<u8>, Seq<u8>)>,
    /// The key that the backend reported.
    pub key_data: Option<(i32, i32)>,
    /// The description of the rows of the last query.
    pub description: Option<<RowDescription as Wire>::Value>,
    /// The rows of the last query.
    pub rows: Seq<<DataRow as Wire>::Value>,
    /// The tag of the last query.
    pub command_tag: Option<Seq<u8>>,
    /// The fields of the error response that ended the last operation.
    pub failure: Option<Seq<(u8, Seq<u8>)>>,
}

/// An event, as the contracts see it.
pub enum EventView {
    Start,
    Query(Seq<u8>),
    Message { message_type: u8, body: Seq<u8> },
}

/// A reply, as the contracts see it.
pub struct ReplyView {
    pub output: Seq<u8>,
    pub next: Next,
    pub error: Option<Error>,
}

impl View for Frontend {
    type V = FrontendView;

    closed spec fn view(&self) -> FrontendView {
        FrontendView {
            state: self.state,
            user: encode_utf8(self.user@),
            password: encode_utf8(self.password@),
            startup: values_of(self.startup@),
            parameters: values_of(self.parameters@),
            key_data: match self.key_data {
                Some(key) => Some(key.value()),
                None => None,
            },
            description: match self.description {
                Some(description) => Some(description.value()),
                None => None,
            },
            rows: values_of(self.rows@),
            command_tag: match self.command_tag {
                Some(tag) => Some(tag.value()),
                None => None,
            },
            failure: match self.failure {
                Some(response) => Some(response.value()),
                None => None,
            },
        }
    }
}

impl View for Event {
    type V = EventView;

    open spec fn view(&self) -> EventView {
        match self {
            Event::Start => EventView::Start,
            Event::Query(query) => EventView::Query(encode_utf8(query@)),
            Event::Message(message) => EventView::Message {
                message_type: message.header.message_type,
                body: remaining(message.raw_body),
            },
        }
    }
}

impl View for Reply {
    type V = ReplyView;

    open spec fn view(&self) -> ReplyView {
        ReplyView { output: written(self.output), next: self.next, error: self.error }
    }
}

/// The version of the protocol that a frontend asks for: 3.0.
pub open spec fn version() -> (i16, i16) {
    (3i16, 0i16)
}

/// The connection `before` in the state `state`.
pub open spec fn moved(before: FrontendView, state: State) -> FrontendView {
    FrontendView { state, ..before }
}

/// The reply that writes `output` and then awaits a frame.
pub open spec fn say(output: Seq<u8>) -> ReplyView {
    ReplyView { output, next: Next::Receive, error: None }
}

/// The reply that awaits a frame.
pub open spec fn listen() -> ReplyView {
    say(Seq::empty())
}

/// The reply that goes back to the caller, with the fault `error` if there
/// was one.
pub open spec fn done(error: Option<Error>) -> ReplyView {
    ReplyView { output: Seq::empty(), next: Next::Return, error }
}

/// The step that ends a connection over the fault `error`.
pub open spec fn fail(before: FrontendView, error: Error) -> (FrontendView, ReplyView) {
    (
        moved(before, State::Failed),
        ReplyView { output: Seq::empty(), next: Next::Close, error: Some(error) },
    )
}

/// The fault that an error response stands for in the state `state`: while
/// the frontend authenticates, the backend turned its credentials down.
pub open spec fn fault_of(state: State) -> Option<Error> {
    if state == State::AwaitAuth || state == State::AwaitAuthOk {
        Some(Error::AuthFailed)
    } else {
        None
    }
}

/// What a connection does with a frame of the kind `E`: it keeps the error
/// response, ends the operation, and awaits the backend to be ready.
pub open spec fn on_error_response(before: FrontendView, message_type: u8, body: Seq<u8>) -> (
    FrontendView,
    ReplyView,
) {
    match typed_decoding::<ErrorResponse>(message_type, body).outcome {
        Ok(fields) => (
            FrontendView { state: State::AwaitReady, failure: Some(fields), ..before },
            done(fault_of(before.state)),
        ),
        Err(e) => fail(before, e),
    }
}

/// What a connection does when it is opened.
pub open spec fn on_start(before: FrontendView) -> (FrontendView, ReplyView) {
    let body = StartupMessage::encoding((version(), before.startup));
    if request_fits(0, body.len()) {
        (moved(before, State::AwaitAuth), say(request_frame(body)))
    } else {
        (before, done(Some(Error::Malformed(Flaw::TooLarge))))
    }
}

/// What a connection that awaits an authentication message does with a
/// frame.
pub open spec fn on_auth(before: FrontendView, message_type: u8, body: Seq<u8>) -> (
    FrontendView,
    ReplyView,
) {
    match auth_kind_of(message_type, body) {
        Some(AuthenticationMessageKind::MD5Password) => match auth_decoding::<
            AuthenticationMD5Password,
        >(AuthenticationMessageKind::MD5Password, message_type, body).outcome {
            Ok(request) => (
                moved(before, State::AwaitAuthOk),
                say(
                    message_frame::<PasswordMessage>(
                        md5_password(before.user, before.password, request.1),
                    ),
                ),
            ),
            Err(e) => fail(before, e),
        },
        Some(AuthenticationMessageKind::Success) => on_auth_ok(before, message_type, body),
        Some(_) => fail(before, Error::UnsupportedKind),
        None => fail(
            before,
            if message_type == AuthenticationOk::kind() {
                Error::UnsupportedKind
            } else {
                Error::UnexpectedMessage
            },
        ),
    }
}

/// What a connection that awaits the verdict of the backend does with a
/// frame.
pub open spec fn on_auth_ok(before: FrontendView, message_type: u8, body: Seq<u8>) -> (
    FrontendView,
    ReplyView,
) {
    match auth_decoding::<AuthenticationOk>(
        AuthenticationMessageKind::Success,
        message_type,
        body,
    ).outcome {
        Ok(_) => (moved(before, State::AwaitParams), listen()),
        Err(e) => fail(before, e),
    }
}

/// What a connection that takes in the parameters of the session does with
/// a frame.
pub open spec fn on_params(before: FrontendView, message_type: u8, body: Seq<u8>) -> (
    FrontendView,
    ReplyView,
) {
    if message_type == ParameterStatus::kind() {
        match typed_decoding::<ParameterStatus>(message_type, body).outcome {
            Ok(parameter) => (
                FrontendView { parameters: before.parameters.push(parameter), ..before },
                listen(),
            ),
            Err(e) => fail(before, e),
        }
    } else if message_type == BackendKeyData::kind() {
        match typed_decoding::<BackendKeyData>(message_type, body).outcome {
            Ok(key) => (
                FrontendView { state: State::AwaitReady, key_data: Some(key), ..before },
                listen(),
            ),
            Err(e) => fail(before, e),
        }
    } else {
        on_ready(before, message_type, body)
    }
}

/// What a connection that awaits the backend to be ready does with a frame.
pub open spec fn on_ready(before: FrontendView, message_type: u8, body: Seq<u8>) -> (
    FrontendView,
    ReplyView,
) {
    match typed_decoding::<ReadyForQuery>(message_type, body).outcome {
        Ok(_) => (moved(before, State::ReadyForQuery), done(None)),
        Err(e) => fail(before, e),
    }
}

/// What a connection that is ready does with a query.
pub open spec fn on_query(before: FrontendView, query: Seq<u8>) -> (FrontendView, ReplyView) {
    if !nul_free(query) {
        (before, done(Some(Error::Malformed(Flaw::InteriorNul))))
    } else if !message_fits(0, query.len() + 1) {
        (before, done(Some(Error::Malformed(Flaw::TooLarge))))
    } else {
        (
            FrontendView {
                state: State::AwaitResult,
                description: None,
                rows: Seq::empty(),
                command_tag: None,
                failure: None,
                ..before
            },
            say(message_frame::<Query>(query)),
        )
    }
}

/// What a connection that awaits the result of a query does with a frame.
pub open spec fn on_result(before: FrontendView, message_type: u8, body: Seq<u8>) -> (
    FrontendView,
    ReplyView,
) {
    if message_type == RowDescription::kind() {
        match typed_decoding::<RowDescription>(message_type, body).outcome {
            Ok(description) => (
                FrontendView { description: Some(description), ..before },
                listen(),
            ),
            Err(e) => fail(before, e),
        }
    } else if message_type == DataRow::kind() {
        match typed_decoding::<DataRow>(message_type, body).outcome {
            Ok(row) => (FrontendView { rows: before.rows.push(row), ..before }, listen()),
            Err(e) => fail(before, e),
        }
    } else if message_type == CommandComplete::kind() {
        match typed_decoding::<CommandComplete>(message_type, body).outcome {
            Ok(tag) => (FrontendView { command_tag: Some(tag), ..before }, listen()),
            Err(e) => fail(before, e),
        }
    } else {
        on_ready(before, message_type, body)
    }
}

/// What a connection does with a frame.
pub open spec fn on_message(before: FrontendView, message_type: u8, body: Seq<u8>) -> (
    FrontendView,
    ReplyView,
) {
    if before.state == State::Init || before.state == State::ReadyForQuery || before.state
        == State::Failed {
        fail(before, Error::UnexpectedMessage)
    } else if message_type == ErrorResponse::kind() {
        on_error_response(before, message_type, body)
    } else {
        match before.state {
            State::AwaitAuth => on_auth(before, message_type, body),
            State::AwaitAuthOk => on_auth_ok(before, message_type, body),
            State::AwaitParams => on_params(before, message_type, body),
            State::AwaitReady => on_ready(before, message_type, body),
            _ => on_result(before, message_type, body),
        }
    }
}

/// The protocol: what a connection becomes when an event happens, and what
/// its worker is asked to do. An event that the state of the connection does
/// not allow for ends the connection.
pub open spec fn transition(before: FrontendView, event: EventView) -> (FrontendView, ReplyView) {
    match event {
        EventView::Start => if before.state == State::Init {
            on_start(before)
        } else {
            fail(before, Error::UnexpectedMessage)
        },
        EventView::Query(query) => if before.state == State::ReadyForQuery {
            on_query(before, query)
        } else {
            fail(before, Error::UnexpectedMessage)
        },
        EventView::Message { message_type, body } => on_message(before, message_type, body),
    }
}

impl Frontend {
    /// The protocol for a connection that is about to be opened, for the
    /// user `user` with the password `password`. The startup message will
    /// ask for the parameter `user` and, behind it, for `parameters`. None
    /// if the name of the user holds a zero byte.
    pub fn new(user: String, password: String, parameters: Vec<ParameterStatus>) -> (r: Result<
        Self,
        Error,
    >)
        ensures
            match r {
                Ok(frontend) => nul_free(encode_utf8(user@)) && frontend@ == (FrontendView {
                    state: State::Init,
                    user: encode_utf8(user@),
                    password: encode_utf8(password@),
                    startup: seq![(user_name(), encode_utf8(user@))] + values_of(parameters@),
                    parameters: Seq::empty(),
                    key_data: None,
                    description: None,
                    rows: Seq::empty(),
                    command_tag: None,
                    failure: None,
                }),
                Err(e) => !nul_free(encode_utf8(user@)) && e == Error::Malformed(
                    Flaw::InteriorNul,
                ),
            },
    {
        proof {
            reveal_strlit("user");
        }
        let mut parameters = parameters;
        let ghost others = values_of(parameters@);
        let name = ParameterStatus {
            name: fixed_text("user"),
            value: CString::new(user.as_str())?,
        };
        let mut startup: Vec<ParameterStatus> = Vec::new();
        startup.push(name);
        startup.append(&mut parameters);
        let frontend = Frontend {
            state: State::Init,
            user,
            password,
            startup,
            parameters: Vec::new(),
            key_data: None,
            description: None,
            rows: Vec::new(),
            command_tag: None,
            failure: None,
        };
        assert(frontend@.startup =~= seq![(user_name(), encode_utf8(user@))] + others);
        assert(frontend@.parameters =~= Seq::empty());
        assert(frontend@.rows =~= Seq::empty());
        Ok(frontend)
    }

    /// Where the connection stands.
    pub fn state(&self) -> (state: State)
        ensures
            state == self@.state,
    {
        self.state
    }

    /// The parameters that the backend reported.
    pub fn parameters(&self) -> (parameters: &Vec<ParameterStatus>)
        ensures
            values_of(parameters@) == self@.parameters,
    {
        &self.parameters
    }

    /// The key that the backend reported, if it reported one.
    pub fn key_data(&self) -> (key: &Option<BackendKeyData>)
        ensures
            match *key {
                Some(k) => self@.key_data == Some(k.value()),
                None => self@.key_data is None,
            },
    {
        &self.key_data
    }

    /// The description of the rows of the last query, if one came.
    pub fn description(&self) -> (description: &Option<RowDescription>)
        ensures
            match *description {
                Some(d) => self@.description == Some(d.value()),
                None => self@.description is None,
            },
    {
        &self.description
    }

    /// The rows of the last query.
    pub fn rows(&self) -> (rows: &Vec<DataRow>)
        ensures
            values_of(rows@) == self@.rows,
    {
        &self.rows
    }

    /// The tag of the last query, if one came.
    pub fn command_tag(&self) -> (tag: &Option<CommandComplete>)
        ensures
            match *tag {
                Some(t) => self@.command_tag == Some(t.value()),
                None => self@.command_tag is None,
            },
    {
        &self.command_tag
    }

    /// The error response that ended the last operation, if one did.
    pub fn failure(&self) -> (failure: &Option<ErrorResponse>)
        ensures
            match *failure {
                Some(f) => self@.failure == Some(f.value()),
                None => self@.failure is None,
            },
    {
        &self.failure
    }

    /// Ends the connection over a fault.
    fn fail(&mut self, error: Error) -> (reply: Reply)
        ensures
            (final(self)@, reply@) == fail(old(self)@, error),
    {
        self.state = State::Failed;
        Reply { output: new_buffer(), next: Next::Close, error: Some(error) }
    }

    /// Awaits a frame in the state `state`.
    fn listen_in(&mut self, state: State) -> (reply: Reply)
        ensures
            (final(self)@, reply@) == (moved(old(self)@, state), listen()),
    {
        self.state = state;
        Reply { output: new_buffer(), next: Next::Receive, error: None }
    }

    /// Goes back to the caller.
    fn done(&self, error: Option<Error>) -> (reply: Reply)
        ensures
            reply@ == done(error),
    {
        Reply { output: new_buffer(), next: Next::Return, error }
    }

    /// Opens the connection.
    fn start(&mut self) -> (reply: Reply)
        ensures
            (final(self)@, reply@) == on_start(old(self)@),
    {
        let mut startup: Vec<ParameterStatus> = Vec::new();
        core::mem::swap(&mut startup, &mut self.startup);
        let request = StartupMessage::new(ProtocolVersion { major: 3, minor: 0 }, startup);
        let mut output = new_buffer();
        let sent = put_request(&mut output, &request);
        self.startup = request.parameters.into_vec();
        match sent {
            Ok(()) => {
                assert(written(output) =~= request_frame(
                    StartupMessage::encoding((version(), old(self)@.startup)),
                ));
                self.state = State::AwaitAuth;
                Reply { output, next: Next::Receive, error: None }
            },
            Err(e) => Reply { output, next: Next::Return, error: Some(e) },
        }
    }

    /// Sends a query.
    fn query(&mut self, query: String) -> (reply: Reply)
        ensures
            (final(self)@, reply@) == on_query(old(self)@, encode_utf8(query@)),
    {
        let request = match Query::new(query) {
            Ok(request) => request,
            Err(e) => {
                return self.done(Some(e));
            },
        };
        let mut output = new_buffer();
        match put_message(&mut output, &request) {
            Ok(()) => {},
            Err(e) => {
                return self.done(Some(e));
            },
        }
        assert(written(output) =~= message_frame::<Query>(encode_utf8(query@)));
        self.state = State::AwaitResult;
        self.description = None;
        self.rows = Vec::new();
        self.command_tag = None;
        self.failure = None;
        assert(self@.rows =~= Seq::empty());
        Reply { output, next: Next::Receive, error: None }
    }

    /// Takes in an error response.
    fn receive_error(&mut self, message: &mut RawBackendMessage) -> (reply: Reply)
        ensures
            (final(self)@, reply@) == on_error_response(
                old(self)@,
                old(message).header.message_type,
                remaining(old(message).raw_body),
            ),
    {
        match ErrorResponse::try_from(message) {
            Ok(response) => {
                let error = match self.state {
                    State::AwaitAuth => Some(Error::AuthFailed),
                    State::AwaitAuthOk => Some(Error::AuthFailed),
                    _ => None,
                };
                self.failure = Some(response);
                self.state = State::AwaitReady;
                self.done(error)
            },
            Err(e) => self.fail(e),
        }
    }

    /// Takes in the verdict of the backend.
    fn receive_auth_ok(&mut self, message: &mut RawBackendMessage) -> (reply: Reply)
        ensures
            (final(self)@, reply@) == on_auth_ok(
                old(self)@,
                old(message).header.message_type,
                remaining(old(message).raw_body),
            ),
    {
        match AuthenticationOk::try_from(message) {
            Ok(_) => self.listen_in(State::AwaitParams),
            Err(e) => self.fail(e),
        }
    }

    /// Takes in an authentication message.
    fn receive_auth(&mut self, message: &mut RawBackendMessage) -> (reply: Reply)
        ensures
            (final(self)@, reply@) == on_auth(
                old(self)@,
                old(message).header.message_type,
                remaining(old(message).raw_body),
            ),
    {
        match message.get_auth_message_kind() {
            Some(AuthenticationMessageKind::MD5Password) => {
                match AuthenticationMD5Password::try_from(message) {
                    Ok(request) => {
                        let answer = match PasswordMessage::new_from_user_password(
                            &self.user,
                            &self.password,
                            &request.salt,
                        ) {
                            Ok(answer) => answer,
                            Err(e) => {
                                return self.fail(e);
                            },
                        };
                        let mut output = new_buffer();
                        match put_message(&mut output, &answer) {
                            Ok(()) => {},
                            Err(e) => {
                                return self.fail(e);
                            },
                        }
                        assert(written(output) =~= message_frame::<PasswordMessage>(
                            md5_password(old(self)@.user, old(self)@.password, request.salt@),
                        ));
                        self.state = State::AwaitAuthOk;
                        Reply { output, next: Next::Receive, error: None }
                    },
                    Err(e) => self.fail(e),
                }
            },
            Some(AuthenticationMessageKind::Success) => self.receive_auth_ok(message),
            Some(_) => self.fail(Error::UnsupportedKind),
            None => {
                if message.header.message_type == 0x52 {
                    self.fail(Error::UnsupportedKind)
                } else {
                    self.fail(Error::UnexpectedMessage)
                }
            },
        }
    }

    /// Takes in that the backend is ready.
    fn receive_ready(&mut self, message: &mut RawBackendMessage) -> (reply: Reply)
        ensures
            (final(self)@, reply@) == on_ready(
                old(self)@,
                old(message).header.message_type,
                remaining(old(message).raw_body),
            ),
    {
        match ReadyForQuery::try_from(message) {
            Ok(_) => {
                self.state = State::ReadyForQuery;
                self.done(None)
            },
            Err(e) => self.fail(e),
        }
    }

    /// Takes in what the backend reports of the session.
    fn receive_params(&mut self, message: &mut RawBackendMessage) -> (reply: Reply)
        ensures
            (final(self)@, reply@) == on_params(
                old(self)@,
                old(message).header.message_type,
                remaining(old(message).raw_body),
            ),
    {
        if message.header.message_type == 0x53 {
            match ParameterStatus::try_from(message) {
                Ok(parameter) => {
                    self.parameters.push(parameter);
                    assert(self@.parameters =~= old(self)@.parameters.push(parameter.value()));
                    self.listen_in(self.state)
                },
                Err(e) => self.fail(e),
            }
        } else if message.header.message_type == 0x4b {
            match BackendKeyData::try_from(message) {
                Ok(key) => {
                    self.key_data = Some(key);
                    self.listen_in(State::AwaitReady)
                },
                Err(e) => self.fail(e),
            }
        } else {
            self.receive_ready(message)
        }
    }

    /// Takes in a part of the result of a query.
    fn receive_result(&mut self, message: &mut RawBackendMessage) -> (reply: Reply)
        ensures
            (final(self)@, reply@) == on_result(
                old(self)@,
                old(message).header.message_type,
                remaining(old(message).raw_body),
            ),
    {
        if message.header.message_type == 0x54 {
            match RowDescription::try_from(message) {
                Ok(description) => {
                    self.description = Some(description);
                    self.listen_in(self.state)
                },
                Err(e) => self.fail(e),
            }
        } else if message.header.message_type == 0x44 {
            match DataRow::try_from(message) {
                Ok(row) => {
                    self.rows.push(row);
                    assert(self@.rows =~= old(self)@.rows.push(row.value()));
                    self.listen_in(self.state)
                },
                Err(e) => self.fail(e),
            }
        } else if message.header.message_type == 0x43 {
            match CommandComplete::try_from(message) {
                Ok(tag) => {
                    self.command_tag = Some(tag);
                    self.listen_in(self.state)
                },
                Err(e) => self.fail(e),
            }
        } else {
            self.receive_ready(message)
        }
    }

    /// Takes the connection one step on: tells the protocol what happened,
    /// and learns what to write and what to do next.
    pub fn step(&mut self, event: Event) -> (reply: Reply)
        ensures
            (final(self)@, reply@) == transition(old(self)@, event@),
    {
        match event {
            Event::Start => match self.state {
                State::Init => self.start(),
                _ => self.fail(Error::UnexpectedMessage),
            },
            Event::Query(query) => match self.state {
                State::ReadyForQuery => self.query(query),
                _ => self.fail(Error::UnexpectedMessage),
            },
            Event::Message(mut message) => match self.state {
                State::Init => self.fail(Error::UnexpectedMessage),
                State::ReadyForQuery => self.fail(Error::UnexpectedMessage),
                State::Failed => self.fail(Error::UnexpectedMessage),
                state => {
                    if message.header.message_type == 0x45 {
                        self.receive_error(&mut message)
                    } else {
                        match state {
                            State::AwaitAuth => self.receive_auth(&mut message),
                            State::AwaitAuthOk => self.receive_auth_ok(&mut message),
                            State::AwaitParams => self.receive_params(&mut message),
                            State::AwaitReady => self.receive_ready(&mut message),
                            _ => self.receive_result(&mut message),
                        }
                    }
                },
            },
        }
    }
}

} // verus!
