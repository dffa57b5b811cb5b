//! The runtime loop as a state machine: from the state of the runtime and
//! the outcome of the last action to the next state and the next action.
//! Whoever drives the machine performs the actions: it sends the requests,
//! calls the initializer and the event handler, and ends the process.

use vstd::prelude::*;
use crate::data::context::RefLambdaContext;
use crate::data::env::{EnvSnapshot, RuntimeEnvVars};
use crate::data::response::{
    is_client_err_status,
    is_server_err_status,
    LambdaAPIResponse,
    AWS_FUNC_ERR_TYPE,
};
use crate::error::{Error, CONTAINER_ERR};
use crate::text::{as_text, decimal, decimal_text, text_ref, to_owned_text};
use crate::transport::{split_headers, Method, Request, RequestModel, Transport};

verus! {

/// The error type reported when the initializer fails.
pub const INIT_ERR_TYPE: &'static str = "Runtime.InitError";

/// The error type reported for an event that carries no request id.
pub const MISSING_REQ_ID_TYPE: &'static str = "Runtime.MissingRequestId";

/// The error type reported before the runtime gives up.
pub const FATAL_ERR_TYPE: &'static str = "Runtime.ContainerError";

/// What the message of a failed initialization begins with.
pub const INIT_ERR: &'static str = "Initialization Error: ";

/// What the message of a failed serialization begins with.
pub const SERIALIZE_ERR: &'static str = "Failed serializing output to JSON. ";

/// The message with which the runtime ends on an event that it did not
/// wait for.
pub const UNEXPECTED_EVENT: &'static str = "Unexpected event. Non-recoverable state.";

/// The version as it stands in a URL: without one leading separator.
pub open spec fn formatted_version(version: Seq<char>) -> Seq<char> {
    if version.len() > 0 && version[0] == '/' {
        version.subrange(1, version.len() as int)
    } else {
        version
    }
}

/// The URL of an endpoint of the runtime API.
pub open spec fn endpoint(api_base: Seq<char>, version: Seq<char>, path: Seq<char>) -> Seq<char> {
    "http://"@ + api_base + "/"@ + version + "/runtime/"@ + path
}

/// The path, below the runtime API, on which a report on one invocation is
/// made.
pub open spec fn invocation_path(request_id: Seq<char>, kind: Seq<char>) -> Seq<char> {
    "invocation/"@ + request_id + "/"@ + kind
}

/// The headers of an error report: the error type, where there is one.
pub open spec fn error_headers(error_type: Option<Seq<char>>) -> Seq<(Seq<char>, Seq<char>)> {
    match error_type {
        Some(t) => seq![(AWS_FUNC_ERR_TYPE@, t)],
        None => seq![],
    }
}

/// The message of the error that stands for a reply of the client-error
/// band.
pub open spec fn client_error_text(parts: crate::data::response::ResponseParts) -> Seq<char> {
    "Client error ("@ + decimal_text(parts.status as nat) + "). ErrorResponse: "@ + match parts.body {
        Some(detail) => detail,
        None => Seq::<char>::empty(),
    }
}

/// What a reply means for the call that it answers.
pub enum Verdict {
    /// The call went through.
    Proceed,
    /// The control plane refused the call; the runtime goes on.
    ClientError(Error),
    /// The execution environment is lost.
    Fatal,
}

/// Judges a reply by the band of its status.
pub fn handle_response<R: LambdaAPIResponse>(resp: &R) -> (v: Verdict)
    ensures
        is_server_err_status(resp.parts().status) ==> v is Fatal,
        is_client_err_status(resp.parts().status) ==> v is ClientError && v->ClientError_0@
            == client_error_text(resp.parts()),
        !is_server_err_status(resp.parts().status) && !is_client_err_status(resp.parts().status)
            ==> v is Proceed,
{
    if resp.is_server_err() {
        Verdict::Fatal
    } else if resp.is_client_err() {
        let mut msg = String::from_str("Client error (");
        msg.append(decimal(resp.get_status_code()).as_str());
        msg.append("). ErrorResponse: ");
        match resp.error_response() {
            Some(detail) => {
                msg.append(detail);
            },
            None => {
                assert(msg@ + Seq::<char>::empty() =~= msg@);
            },
        }
        Verdict::ClientError(Error::new(msg))
    } else {
        Verdict::Proceed
    }
}

/// Where the loop stands.
pub enum LoopState<R> {
    /// The initializer has not answered yet.
    Initializing,
    /// The request for the next event is under way.
    Polling,
    /// The event handler is at work on the event of `response`.
    Invoking { request_id: String, response: R },
    /// A report is under way, after which the loop polls again.
    Reporting,
    /// The last report is under way, after which the runtime ends.
    Failing { reason: String },
    /// The runtime has ended.
    Terminated,
}

/// The mathematical content of a loop state.
pub enum StateModel<R> {
    Initializing,
    Polling,
    Invoking { request_id: Seq<char>, response: R },
    Reporting,
    Failing { reason: Seq<char> },
    Terminated,
}

impl<R> View for LoopState<R> {
    type V = StateModel<R>;

    open spec fn view(&self) -> StateModel<R> {
        match *self {
            LoopState::Initializing => StateModel::Initializing,
            LoopState::Polling => StateModel::Polling,
            LoopState::Invoking { request_id, response } => StateModel::Invoking {
                request_id: request_id@,
                response,
            },
            LoopState::Reporting => StateModel::Reporting,
            LoopState::Failing { reason } => StateModel::Failing { reason: reason@ },
            LoopState::Terminated => StateModel::Terminated,
        }
    }
}

/// What came of the last action.
pub enum Event<R> {
    /// The initializer returned the event handler.
    InitSucceeded,
    /// The initializer failed, with this error text.
    InitFailed(String),
    /// The control plane answered the last request.
    Reply(R),
    /// The last request failed below the protocol.
    TransportFailed(Error),
    /// The handler succeeded, and this is its output, serialized.
    Completed(String),
    /// The handler succeeded, and its output could not be serialized, for
    /// this reason.
    Unserializable(String),
    /// The handler failed, with this error text.
    HandlerFailed(String),
}

/// The mathematical content of an event.
pub enum EventModel<R> {
    InitSucceeded,
    InitFailed(Seq<char>),
    Reply(R),
    TransportFailed(Seq<char>),
    Completed(Seq<char>),
    Unserializable(Seq<char>),
    HandlerFailed(Seq<char>),
}

impl<R> View for Event<R> {
    type V = EventModel<R>;

    open spec fn view(&self) -> EventModel<R> {
        match *self {
            Event::InitSucceeded => EventModel::InitSucceeded,
            Event::InitFailed(t) => EventModel::InitFailed(t@),
            Event::Reply(r) => EventModel::Reply(r),
            Event::TransportFailed(e) => EventModel::TransportFailed(e@),
            Event::Completed(t) => EventModel::Completed(t@),
            Event::Unserializable(t) => EventModel::Unserializable(t@),
            Event::HandlerFailed(t) => EventModel::HandlerFailed(t@),
        }
    }
}

/// What the driver is to do next.
#[derive(Clone, Debug, PartialEq, Eq)]
pub enum Action {
    /// Send this request and come back with the reply or the failure.
    Send(Request),
    /// Make `trace_id`, where there is one, known to the process; call the
    /// handler with `event` and the current context; come back with its
    /// outcome.
    Invoke { event: Option<String>, trace_id: Option<String> },
    /// End the process, with this message.
    Terminate(String),
}

/// The mathematical content of an action.
pub enum ActionModel {
    Send(RequestModel),
    Invoke { event: Option<Seq<char>>, trace_id: Option<Seq<char>> },
    Terminate(Seq<char>),
}

impl View for Action {
    type V = ActionModel;

    open spec fn view(&self) -> ActionModel {
        match *self {
            Action::Send(request) => ActionModel::Send(request@),
            Action::Invoke { event, trace_id } => ActionModel::Invoke {
                event: crate::text::text(event),
                trace_id: crate::text::text(trace_id),
            },
            Action::Terminate(message) => ActionModel::Terminate(message@),
        }
    }
}

/// The mathematical content of a runtime.
pub struct RuntimeModel<R> {
    pub env: EnvSnapshot,
    pub version: Seq<char>,
    pub api_base: Seq<char>,
    pub state: StateModel<R>,
}

impl<R: LambdaAPIResponse> RuntimeModel<R> {
    /// The same runtime in another state.
    pub open spec fn at(self, state: StateModel<R>) -> Self {
        RuntimeModel { state, ..self }
    }

    /// The request for the next event.
    pub open spec fn poll(self) -> RequestModel {
        RequestModel {
            method: Method::Get,
            url: endpoint(self.api_base, self.version, "invocation/next"@),
            body: None,
            headers: seq![],
        }
    }

    /// The request that hands in the serialized result of an invocation.
    pub open spec fn result(self, request_id: Seq<char>, serialized: Seq<char>) -> RequestModel {
        RequestModel {
            method: Method::Post,
            url: endpoint(self.api_base, self.version, invocation_path(request_id, "response"@)),
            body: Some(serialized),
            headers: seq![],
        }
    }

    /// The request that reports an error outside any invocation.
    pub open spec fn init_error(
        self,
        error_type: Option<Seq<char>>,
        detail: Option<Seq<char>>,
    ) -> RequestModel {
        RequestModel {
            method: Method::Post,
            url: endpoint(self.api_base, self.version, "init/error"@),
            body: detail,
            headers: error_headers(error_type),
        }
    }

    /// The request that reports the failure of an invocation.
    pub open spec fn invocation_failure(
        self,
        request_id: Seq<char>,
        error_type: Option<Seq<char>>,
        detail: Option<Seq<char>>,
    ) -> RequestModel {
        RequestModel {
            method: Method::Post,
            url: endpoint(self.api_base, self.version, invocation_path(request_id, "error"@)),
            body: detail,
            headers: error_headers(error_type),
        }
    }

    /// The last report: the runtime sends it and then ends with `reason`,
    /// whatever the answer.
    pub open spec fn give_up(self, reason: Seq<char>) -> (Self, ActionModel) {
        (
            self.at(StateModel::Failing { reason }),
            ActionModel::Send(self.init_error(Some(FATAL_ERR_TYPE@), Some(reason))),
        )
    }

    /// Back to polling.
    pub open spec fn poll_again(self) -> (Self, ActionModel) {
        (self.at(StateModel::Polling), ActionModel::Send(self.poll()))
    }

    /// What follows the answer to a poll. A status of the server-error band
    /// ends the runtime after one last report; one of the client-error band
    /// is passed over; an event without a request id is reported and passed
    /// over; any other event goes to the handler, and its trace id, if it
    /// has one, replaces the cached one.
    pub open spec fn after_poll(self, reply: R) -> (Self, ActionModel) {
        let parts = reply.parts();
        if is_server_err_status(parts.status) {
            self.give_up(CONTAINER_ERR@)
        } else if is_client_err_status(parts.status) {
            self.poll_again()
        } else {
            match parts.request_id {
                None => (
                    self.at(StateModel::Reporting),
                    ActionModel::Send(self.init_error(Some(MISSING_REQ_ID_TYPE@), None)),
                ),
                Some(request_id) => (
                    RuntimeModel {
                        env: match parts.trace_id {
                            Some(id) => EnvSnapshot { trace_id: Some(id), ..self.env },
                            None => self.env,
                        },
                        state: StateModel::Invoking { request_id, response: reply },
                        ..self
                    },
                    ActionModel::Invoke { event: parts.event(), trace_id: parts.trace_id },
                ),
            }
        }
    }

    /// What follows the answer to a report: a status of the server-error
    /// band ends the runtime after one last report, anything else leads
    /// back to polling.
    pub open spec fn after_report(self, reply: R) -> (Self, ActionModel) {
        if is_server_err_status(reply.parts().status) {
            self.give_up(CONTAINER_ERR@)
        } else {
            self.poll_again()
        }
    }

    /// The end of the runtime on an event that the state does not wait for.
    pub open spec fn stray(self) -> (Self, ActionModel) {
        (self.at(StateModel::Terminated), ActionModel::Terminate(UNEXPECTED_EVENT@))
    }

    /// The transition function of the runtime loop.
    pub open spec fn next(self, event: EventModel<R>) -> (Self, ActionModel) {
        match self.state {
            StateModel::Initializing => match event {
                EventModel::InitSucceeded => self.poll_again(),
                EventModel::InitFailed(detail) => (
                    self.at(StateModel::Failing { reason: INIT_ERR@ + detail }),
                    ActionModel::Send(self.init_error(Some(INIT_ERR_TYPE@), Some(detail))),
                ),
                _ => self.stray(),
            },
            StateModel::Polling => match event {
                EventModel::Reply(reply) => self.after_poll(reply),
                EventModel::TransportFailed(reason) => self.give_up(reason),
                _ => self.stray(),
            },
            StateModel::Invoking { request_id, response } => match event {
                EventModel::Completed(serialized) => (
                    self.at(StateModel::Reporting),
                    ActionModel::Send(self.result(request_id, serialized)),
                ),
                EventModel::Unserializable(why) => (
                    self.at(StateModel::Reporting),
                    ActionModel::Send(
                        self.invocation_failure(
                            request_id,
                            Some(SERIALIZE_ERR@ + why),
                            Some(SERIALIZE_ERR@ + why),
                        ),
                    ),
                ),
                EventModel::HandlerFailed(detail) => (
                    self.at(StateModel::Reporting),
                    ActionModel::Send(
                        self.invocation_failure(request_id, Some(detail), Some(detail)),
                    ),
                ),
                _ => self.stray(),
            },
            StateModel::Reporting => match event {
                EventModel::Reply(reply) => self.after_report(reply),
                EventModel::TransportFailed(_) => self.poll_again(),
                _ => self.stray(),
            },
            StateModel::Failing { reason } => match event {
                EventModel::Reply(_) => (
                    self.at(StateModel::Terminated),
                    ActionModel::Terminate(reason),
                ),
                EventModel::TransportFailed(_) => (
                    self.at(StateModel::Terminated),
                    ActionModel::Terminate(reason),
                ),
                _ => self.stray(),
            },
            StateModel::Terminated => self.stray(),
        }
    }
}

/// Removes one leading separator from a version string.
pub fn format_version(version: &str) -> (r: String)
    ensures
        r@ == formatted_version(version@),
{
    let len: usize = version.unicode_len();
    if len > 0 && version.get_char(0) == '/' {
        String::from_str(version.substring_char(1, len))
    } else {
        String::from_str(version)
    }
}

/// The headers of an error report.
fn make_error_headers(error_type: Option<&str>) -> (headers: Vec<(String, String)>)
    ensures
        crate::transport::header_texts(headers@) == error_headers(text_ref(error_type)),
{
    let mut headers: Vec<(String, String)> = Vec::new();
    match error_type {
        Some(t) => {
            headers.push((String::from_str(AWS_FUNC_ERR_TYPE), String::from_str(t)));
        },
        None => {},
    }
    assert(crate::transport::header_texts(headers@) =~= error_headers(text_ref(error_type)));
    headers
}

/// A Lambda runtime, seen from whoever drives it: the requests that the
/// runtime API takes, and the decision on what to do next.
pub trait LambdaRuntime<R: LambdaAPIResponse> {
    /// What the runtime holds.
    spec fn model(&self) -> RuntimeModel<R>;

    /// The request that fetches the next event.
    fn next_invocation(&self) -> (request: Request)
        ensures
            request@ == self.model().poll(),
    ;

    /// The request that hands in the result of an invocation, serialized.
    fn invocation_response(&self, request_id: &str, response: &str) -> (request: Request)
        ensures
            request@ == self.model().result(request_id@, response@),
    ;

    /// The request that reports an error during initialization.
    fn initialization_error(&self, error_type: Option<&str>, error_req: Option<&str>) -> (request:
        Request)
        ensures
            request@ == self.model().init_error(text_ref(error_type), text_ref(error_req)),
    ;

    /// The request that reports an error during an invocation.
    fn invocation_error(
        &self,
        request_id: &str,
        error_type: Option<&str>,
        error_req: Option<&str>,
    ) -> (request: Request)
        ensures
            request@ == self.model().invocation_failure(
                request_id@,
                text_ref(error_type),
                text_ref(error_req),
            ),
    ;

    /// Takes the outcome of the last action and returns the next one. The
    /// first event is the outcome of the initializer. An event that the
    /// state does not wait for ends the runtime.
    fn step(&mut self, event: Event<R>) -> (action: Action)
        ensures
            (final(self).model(), action@) == old(self).model().next(event@),
    ;
}

/// The runtime: the environment of the container, the address of the
/// runtime API, and the state of the loop.
pub struct DefaultRuntime<R: LambdaAPIResponse, ENV: RuntimeEnvVars> {
    /// The environment variables, cached.
    env_vars: ENV,
    /// The version of the runtime API, as it stands in a URL.
    version: String,
    /// The address of the runtime API.
    api_base: String,
    /// Where the loop stands.
    state: LoopState<R>,
}

impl<R: LambdaAPIResponse, ENV: RuntimeEnvVars> View for DefaultRuntime<R, ENV> {
    type V = RuntimeModel<R>;

    closed spec fn view(&self) -> RuntimeModel<R> {
        RuntimeModel {
            env: self.env_vars.snapshot(),
            version: self.version@,
            api_base: self.api_base@,
            state: self.state@,
        }
    }
}

impl<R: LambdaAPIResponse, ENV: RuntimeEnvVars> DefaultRuntime<R, ENV> {
    /// A runtime that waits for its initializer. The environment must name
    /// the runtime API: without it no endpoint has an address.
    pub fn new(version: &str, env_vars: ENV) -> (r: Self)
        requires
            env_vars.snapshot().runtime_api is Some,
        ensures
            r@ == (RuntimeModel {
                env: env_vars.snapshot(),
                version: formatted_version(version@),
                api_base: env_vars.snapshot().runtime_api->Some_0,
                state: StateModel::<R>::Initializing,
            }),
    {
        let api_base = match env_vars.get_runtime_api() {
            Some(v) => String::from_str(v),
            None => vstd::pervasive::unreached(),
        };
        DefaultRuntime {
            env_vars,
            version: format_version(version),
            api_base,
            state: LoopState::Initializing,
        }
    }

    /// The environment of the container.
    pub fn get_env(&self) -> (env: &ENV)
        ensures
            env.snapshot() == self@.env,
    {
        &self.env_vars
    }

    /// Whether the runtime has ended.
    pub fn is_terminated(&self) -> (r: bool)
        ensures
            r == (self@.state is Terminated),
    {
        match &self.state {
            LoopState::Terminated => true,
            _ => false,
        }
    }

    /// The context of the invocation that is under way, if one is.
    pub fn context(&self) -> (r: Option<RefLambdaContext<'_, ENV, R>>)
        ensures
            match self@.state {
                StateModel::Invoking { request_id, response } => r is Some
                    && r->Some_0.env_vars.snapshot() == self@.env && *r->Some_0.invo_resp
                    == response,
                _ => r is None,
            },
    {
        match &self.state {
            LoopState::Invoking { request_id, response } => Some(
                RefLambdaContext { env_vars: &self.env_vars, invo_resp: response },
            ),
            _ => None,
        }
    }

    /// The URL of the endpoint at `path`.
    fn url(&self, path: &str) -> (r: String)
        ensures
            r@ == endpoint(self@.api_base, self@.version, path@),
    {
        let mut url = String::from_str("http://");
        url.append(self.api_base.as_str());
        url.append("/");
        url.append(self.version.as_str());
        url.append("/runtime/");
        url.append(path);
        url
    }

    /// The URL on which a report of the given kind on one invocation is
    /// made.
    fn invocation_url(&self, request_id: &str, kind: &str) -> (r: String)
        ensures
            r@ == endpoint(self@.api_base, self@.version, invocation_path(request_id@, kind@)),
    {
        let mut path = String::from_str("invocation/");
        path.append(request_id);
        path.append("/");
        path.append(kind);
        self.url(path.as_str())
    }

    /// Enters the state in which the last report is under way.
    fn give_up(&mut self, reason: String) -> (action: Action)
        ensures
            (final(self)@, action@) == old(self)@.give_up(reason@),
    {
        let request = self.initialization_error(Some(FATAL_ERR_TYPE), Some(reason.as_str()));
        self.state = LoopState::Failing { reason };
        Action::Send(request)
    }

    /// Enters the state in which a poll is under way.
    fn poll_again(&mut self) -> (action: Action)
        ensures
            (final(self)@, action@) == old(self)@.poll_again(),
    {
        self.state = LoopState::Polling;
        Action::Send(self.next_invocation())
    }

    /// Enters the state in which a report is under way.
    fn report(&mut self, request: Request) -> (action: Action)
        ensures
            (final(self)@, action@) == (
                old(self)@.at(StateModel::Reporting),
                ActionModel::Send(request@),
            ),
    {
        self.state = LoopState::Reporting;
        Action::Send(request)
    }

    /// Ends the runtime.
    fn terminate(&mut self, message: String) -> (action: Action)
        ensures
            (final(self)@, action@) == (
                old(self)@.at(StateModel::Terminated),
                ActionModel::Terminate(message@),
            ),
    {
        self.state = LoopState::Terminated;
        Action::Terminate(message)
    }

    /// Ends the runtime on an event that it did not wait for.
    fn stray(&mut self) -> (action: Action)
        ensures
            (final(self)@, action@) == old(self)@.stray(),
    {
        self.terminate(String::from_str(UNEXPECTED_EVENT))
    }

    /// Decides what follows the answer to a poll.
    fn after_poll(&mut self, reply: R) -> (action: Action)
        ensures
            (final(self)@, action@) == old(self)@.after_poll(reply),
    {
        match handle_response(&reply) {
            Verdict::Fatal => self.give_up(String::from_str(CONTAINER_ERR)),
            Verdict::ClientError(_) => self.poll_again(),
            Verdict::Proceed => match to_owned_text(reply.aws_request_id()) {
                None => {
                    let request = self.initialization_error(Some(MISSING_REQ_ID_TYPE), None);
                    self.report(request)
                },
                Some(request_id) => {
                    let trace_id = to_owned_text(reply.trace_id());
                    let event = to_owned_text(reply.event_response());
                    if trace_id.is_some() {
                        self.env_vars.set_trace_id(reply.trace_id());
                    }
                    self.state = LoopState::Invoking { request_id, response: reply };
                    Action::Invoke { event, trace_id }
                },
            },
        }
    }

    /// Decides what follows the answer to a report.
    fn after_report(&mut self, reply: R) -> (action: Action)
        ensures
            (final(self)@, action@) == old(self)@.after_report(reply),
    {
        match handle_response(&reply) {
            Verdict::Fatal => self.give_up(String::from_str(CONTAINER_ERR)),
            _ => self.poll_again(),
        }
    }
}

impl<R: LambdaAPIResponse, ENV: RuntimeEnvVars> LambdaRuntime<R> for DefaultRuntime<R, ENV> {
    open spec fn model(&self) -> RuntimeModel<R> {
        self@
    }

    /// The request that fetches the next event.
    fn next_invocation(&self) -> (request: Request) {
        let request = Request {
            method: Method::Get,
            url: self.url("invocation/next"),
            body: None,
            headers: Vec::new(),
        };
        assert(request@.headers =~= seq![]);
        request
    }

    /// The request that hands in the result of an invocation, serialized.
    fn invocation_response(&self, request_id: &str, response: &str) -> (request: Request) {
        let request = Request {
            method: Method::Post,
            url: self.invocation_url(request_id, "response"),
            body: Some(String::from_str(response)),
            headers: Vec::new(),
        };
        assert(request@.headers =~= seq![]);
        request
    }

    /// The request that reports an error during initialization.
    fn initialization_error(&self, error_type: Option<&str>, error_req: Option<&str>) -> (request:
        Request) {
        Request {
            method: Method::Post,
            url: self.url("init/error"),
            body: to_owned_text(error_req),
            headers: make_error_headers(error_type),
        }
    }

    /// The request that reports an error during an invocation.
    fn invocation_error(
        &self,
        request_id: &str,
        error_type: Option<&str>,
        error_req: Option<&str>,
    ) -> (request: Request) {
        Request {
            method: Method::Post,
            url: self.invocation_url(request_id, "error"),
            body: to_owned_text(error_req),
            headers: make_error_headers(error_type),
        }
    }

    /// Takes the outcome of the last action and returns the next one. The
    /// first event is the outcome of the initializer. An event that the
    /// state does not wait for ends the runtime.
    fn step(&mut self, event: Event<R>) -> (action: Action) {
        let mut state = LoopState::Terminated;
        core::mem::swap(&mut self.state, &mut state);
        match state {
            LoopState::Initializing => match event {
                Event::InitSucceeded => self.poll_again(),
                Event::InitFailed(detail) => {
                    let request = self.initialization_error(
                        Some(INIT_ERR_TYPE),
                        Some(detail.as_str()),
                    );
                    let mut reason = String::from_str(INIT_ERR);
                    reason.append(detail.as_str());
                    self.state = LoopState::Failing { reason };
                    Action::Send(request)
                },
                _ => self.stray(),
            },
            LoopState::Polling => match event {
                Event::Reply(reply) => self.after_poll(reply),
                Event::TransportFailed(e) => self.give_up(e.to_text()),
                _ => self.stray(),
            },
            LoopState::Invoking { request_id, response } => match event {
                Event::Completed(serialized) => {
                    let request = self.invocation_response(
                        request_id.as_str(),
                        serialized.as_str(),
                    );
                    self.report(request)
                },
                Event::Unserializable(why) => {
                    let mut detail = String::from_str(SERIALIZE_ERR);
                    detail.append(why.as_str());
                    let request = self.invocation_error(
                        request_id.as_str(),
                        Some(detail.as_str()),
                        Some(detail.as_str()),
                    );
                    self.report(request)
                },
                Event::HandlerFailed(detail) => {
                    let request = self.invocation_error(
                        request_id.as_str(),
                        Some(detail.as_str()),
                        Some(detail.as_str()),
                    );
                    self.report(request)
                },
                _ => self.stray(),
            },
            LoopState::Reporting => match event {
                Event::Reply(reply) => self.after_report(reply),
                Event::TransportFailed(_) => self.poll_again(),
                _ => self.stray(),
            },
            LoopState::Failing { reason } => match event {
                Event::Reply(_) => self.terminate(reason),
                Event::TransportFailed(_) => self.terminate(reason),
                _ => self.stray(),
            },
            LoopState::Terminated => self.stray(),
        }
    }
}

/// The event that the outcome of a request is to the runtime.
pub fn outcome_event<R: LambdaAPIResponse>(outcome: Result<R, Error>) -> (event: Event<R>)
    ensures
        event == match outcome {
            Ok(reply) => Event::Reply(reply),
            Err(failure) => Event::TransportFailed(failure),
        },
        event@ == match outcome {
            Ok(reply) => EventModel::Reply(reply),
            Err(failure) => EventModel::TransportFailed(failure@),
        },
{
    match outcome {
        Ok(reply) => Event::Reply(reply),
        Err(failure) => Event::TransportFailed(failure),
    }
}

/// Sends `request` through `transport`, by the operation that its method
/// names, with its URL and its body as they stand and its headers split
/// into names and values, and returns the outcome as the event that the
/// runtime waits for: the reply that the transport gave to this very
/// request, or the failure with which it answered it.
pub fn perform<R: LambdaAPIResponse, T: Transport<R>>(transport: &T, request: &Request) -> (event:
    Event<R>)
    ensures
        match event {
            Event::Reply(reply) => transport.answered(request@, Ok(reply)),
            Event::TransportFailed(failure) => transport.answered(request@, Err(failure)),
            _ => false,
        },
{
    let headers = split_headers(&request.headers);
    let outcome = match request.method {
        Method::Get => transport.get(request.url.as_str(), as_text(&request.body), headers),
        Method::Post => transport.post(request.url.as_str(), as_text(&request.body), headers),
    };
    outcome_event(outcome)
}

/// One leading separator on the version changes nothing: a version with
/// it and the same version without it are formatted alike, and so give
/// the same URL for every endpoint.
pub proof fn lemma_leading_separator_ignored(api_base: Seq<char>, version: Seq<char>, path: Seq<char>)
    requires
        version.len() == 0 || version[0] != '/',
    ensures
        formatted_version(seq!['/'] + version) == formatted_version(version),
        endpoint(api_base, formatted_version(seq!['/'] + version), path) == endpoint(
            api_base,
            formatted_version(version),
            path,
        ),
{
    assert((seq!['/'] + version).subrange(1, (seq!['/'] + version).len() as int) =~= version);
}

/// Whatever happens, the runtime keeps its address, its version and its
/// environment: of the environment only the trace id may change.
pub proof fn lemma_only_trace_id_changes<R: LambdaAPIResponse>(
    runtime: RuntimeModel<R>,
    event: EventModel<R>,
)
    ensures
        runtime.next(event).0.api_base == runtime.api_base,
        runtime.next(event).0.version == runtime.version,
        runtime.next(event).0.env == (EnvSnapshot {
            trace_id: runtime.next(event).0.env.trace_id,
            ..runtime.env
        }),
{
}

/// Once the last report is under way the runtime ends with the reason it
/// had for giving up, whether the report is answered, refused or lost; and
/// a runtime that has ended stays so. Neither polls again.
pub proof fn lemma_giving_up_is_final<R: LambdaAPIResponse>(
    runtime: RuntimeModel<R>,
    event: EventModel<R>,
)
    requires
        runtime.state is Failing || runtime.state is Terminated,
    ensures
        runtime.next(event).0.state is Terminated,
        runtime.next(event).1 is Terminate,
        runtime.state is Failing && (event is Reply || event is TransportFailed)
            ==> runtime.next(event).1 == ActionModel::Terminate(runtime.state->reason),
{
}

/// A failing initializer leads to one report of the error and from there
/// to the end: the runtime never polls.
pub proof fn lemma_failed_init_never_polls<R: LambdaAPIResponse>(
    runtime: RuntimeModel<R>,
    detail: Seq<char>,
)
    requires
        runtime.state is Initializing,
    ensures
        runtime.next(EventModel::InitFailed(detail)).0.state is Failing,
        runtime.next(EventModel::InitFailed(detail)).1 == ActionModel::Send(
            runtime.init_error(Some(INIT_ERR_TYPE@), Some(detail)),
        ),
{
}

/// A reply of the server-error band, to a poll or to a report, makes the
/// runtime give up; one of the client-error band makes it poll again.
pub proof fn lemma_error_bands<R: LambdaAPIResponse>(runtime: RuntimeModel<R>, reply: R)
    requires
        runtime.state is Polling || runtime.state is Reporting,
    ensures
        is_server_err_status(reply.parts().status) ==> runtime.next(EventModel::Reply(reply))
            == runtime.give_up(CONTAINER_ERR@),
        is_client_err_status(reply.parts().status) ==> runtime.next(EventModel::Reply(reply))
            == runtime.poll_again(),
{
}

/// The handler is called for nothing but the answer to a poll that is no
/// error and names its request; the runtime ends only after its last
/// report, or on an event that it did not wait for.
pub proof fn lemma_when_the_handler_runs<R: LambdaAPIResponse>(
    runtime: RuntimeModel<R>,
    event: EventModel<R>,
)
    ensures
        runtime.next(event).1 is Invoke <==> runtime.state is Polling && event is Reply
            && !is_server_err_status(event->Reply_0.parts().status) && !is_client_err_status(
            event->Reply_0.parts().status,
        ) && event->Reply_0.parts().request_id is Some,
        runtime.next(event).1 is Invoke <==> runtime.next(event).0.state is Invoking,
        runtime.next(event).1 is Terminate <==> runtime.next(event).0.state is Terminated,
{
}

} // verus!
