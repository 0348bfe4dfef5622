use vstd::prelude::*;

use crate::data::{
    is_invalid_body_response, process_req, Request, RequestType, Response,
    ResponseError, ResponseHeader, Status,
};

verus! {

/// How a server is set up: whether it asks clients to authenticate, and the
/// address it listens on (`None` for the default, every interface on port
/// 2079).
#[derive(Debug, Clone)]
pub struct RewaveServerConfig {
    pub auth: bool,
    pub addr: Option<&'static str>,
}

impl RewaveServerConfig {
    /// The address the server listens on: the configured one, else
    /// "0.0.0.0:2079".
    pub fn listen_addr(&self) -> (res: &'static str)
        ensures
            match self.addr {
                Some(a) => res == a,
                None => res@ == "0.0.0.0:2079"@,
            },
    {
        match self.addr {
            Some(a) => a,
            None => "0.0.0.0:2079",
        }
    }
}

/// The answer to a ping: an empty body, status `Success`, no message, not
/// an error.
pub open spec fn is_pong(r: Response) -> bool {
    &&& r.body matches Some(b) && b@.len() == 0
    &&& r.header.status == Status::Success
    &&& r.header.message is None
    &&& !r.header.error
}

/// `resp` is what is sent back for a handler's outcome: the handler's own
/// response, or for a failure a response with no body that carries the
/// failure's status and message and is flagged as an error.
pub open spec fn is_handler_reply(outcome: Result<Response, ResponseError>, resp: Response) -> bool {
    match outcome {
        Ok(r) => resp == r,
        Err(e) => {
            &&& resp.body is None
            &&& resp.header == ResponseHeader {
                status: e.status,
                message: Some(e.message),
                error: true,
            }
        },
    }
}

/// The answer to a ping.
pub fn pong_response() -> (res: Response)
    ensures
        is_pong(res),
{
    Response {
        body: Some(Vec::new()),
        header: ResponseHeader { status: Status::Success, message: None, error: false },
    }
}

/// What is sent back for a handler's outcome.
pub fn handler_response(outcome: Result<Response, ResponseError>) -> (res: Response)
    ensures
        is_handler_reply(outcome, res),
{
    match outcome {
        Ok(r) => r,
        Err(err) => Response {
            body: None,
            header: ResponseHeader { status: err.status, message: Some(err.message), error: true },
        },
    }
}

/// Where a connection stands.
#[derive(Debug, Clone, Copy, PartialEq, Eq, Structural)]
pub enum ConnState {
    /// Waiting for the next message from the client.
    Reading,
    /// Waiting for the message's bytes to be read as a request.
    Parsing,
    /// Waiting for the handler's outcome for a request.
    Handling,
    /// Done: the connection is dropped.
    Closed,
}

/// What the driver of a connection reports.
#[derive(Debug)]
pub enum ConnEvent {
    /// Reading a message from the stream failed.
    ReadFailed,
    /// The bytes of one message.
    Received(Vec<u8>),
    /// The request that the message's bytes hold, or `None` where they hold
    /// none.
    Parsed(Option<Request>),
    /// The handler's outcome for the dispatched request.
    Handled(Result<Response, ResponseError>),
}

/// What the driver of a connection does next.
#[derive(Debug)]
pub enum ConnAction {
    /// Read these bytes as a request and report `Parsed`.
    Parse(Vec<u8>),
    /// Hand this request to the handler and report `Handled`.
    Dispatch(Request),
    /// Send this response, then read the next message.
    Reply(Response),
    /// Drop the connection.
    Close,
}

/// A connection in `state` that sees `event` moves to `next` and does
/// `action`. An event that the state does not wait for closes the
/// connection.
pub open spec fn steps_to(state: ConnState, event: ConnEvent, next: ConnState, action: ConnAction) -> bool {
    match (state, event) {
        (ConnState::Reading, ConnEvent::ReadFailed) => next == ConnState::Closed && action is Close,
        (ConnState::Reading, ConnEvent::Received(bytes)) => if bytes@.len() == 0 {
            next == ConnState::Closed && action is Close
        } else {
            next == ConnState::Parsing && action == ConnAction::Parse(bytes)
        },
        (ConnState::Parsing, ConnEvent::Parsed(None)) => {
            &&& next == ConnState::Reading
            &&& action matches ConnAction::Reply(r) && is_invalid_body_response(r)
        },
        (ConnState::Parsing, ConnEvent::Parsed(Some(req))) => if req.header._type == RequestType::Ping {
            &&& next == ConnState::Reading
            &&& action matches ConnAction::Reply(r) && is_pong(r)
        } else {
            next == ConnState::Handling && action == ConnAction::Dispatch(req)
        },
        (ConnState::Handling, ConnEvent::Handled(outcome)) => {
            &&& next == ConnState::Reading
            &&& action matches ConnAction::Reply(r) && is_handler_reply(outcome, r)
        },
        _ => next == ConnState::Closed && action is Close,
    }
}

/// Serves one request per message on a connection: a message that cannot be
/// read ends the connection, one that holds no request is answered with
/// `InvalidBody`, a ping is answered at once, and every other request goes
/// to the handler, whose outcome is sent back.
pub fn step(state: ConnState, event: ConnEvent) -> (res: (ConnState, ConnAction))
    ensures
        steps_to(state, event, res.0, res.1),
{
    match state {
        ConnState::Reading => match event {
            ConnEvent::ReadFailed => (ConnState::Closed, ConnAction::Close),
            ConnEvent::Received(bytes) => {
                if bytes.len() == 0 {
                    (ConnState::Closed, ConnAction::Close)
                } else {
                    (ConnState::Parsing, ConnAction::Parse(bytes))
                }
            },
            _ => (ConnState::Closed, ConnAction::Close),
        },
        ConnState::Parsing => match event {
            ConnEvent::Parsed(parsed) => match process_req(parsed) {
                Ok(req) => {
                    if req.header._type == RequestType::Ping {
                        (ConnState::Reading, ConnAction::Reply(pong_response()))
                    } else {
                        (ConnState::Handling, ConnAction::Dispatch(req))
                    }
                },
                Err(resp) => (ConnState::Reading, ConnAction::Reply(resp)),
            },
            _ => (ConnState::Closed, ConnAction::Close),
        },
        ConnState::Handling => match event {
            ConnEvent::Handled(outcome) => (
                ConnState::Reading,
                ConnAction::Reply(handler_response(outcome)),
            ),
            _ => (ConnState::Closed, ConnAction::Close),
        },
        ConnState::Closed => (ConnState::Closed, ConnAction::Close),
    }
}

/// A closed connection stays closed, whatever is reported to it.
pub proof fn lemma_closed_stays_closed(event: ConnEvent, next: ConnState, action: ConnAction)
    requires
        steps_to(ConnState::Closed, event, next, action),
    ensures
        next == ConnState::Closed,
        action is Close,
{
}

/// A connection is dropped exactly when it moves to `Closed`.
pub proof fn lemma_close_exactly_when_closed(
    state: ConnState,
    event: ConnEvent,
    next: ConnState,
    action: ConnAction,
)
    requires
        steps_to(state, event, next, action),
    ensures
        action is Close <==> next == ConnState::Closed,
{
}

/// After every response the connection goes back to reading the next
/// message.
pub proof fn lemma_reply_resumes_reading(
    state: ConnState,
    event: ConnEvent,
    next: ConnState,
    action: ConnAction,
)
    requires
        steps_to(state, event, next, action),
        action is Reply,
    ensures
        next == ConnState::Reading,
{
}

/// The handler only ever sees a request that was just read, unchanged, and
/// never a ping.
pub proof fn lemma_dispatch_only_parsed_non_ping(
    state: ConnState,
    event: ConnEvent,
    next: ConnState,
    req: Request,
)
    requires
        steps_to(state, event, next, ConnAction::Dispatch(req)),
    ensures
        state == ConnState::Parsing,
        event == ConnEvent::Parsed(Some(req)),
        req.header._type != RequestType::Ping,
        next == ConnState::Handling,
{
}

/// Every parsed request that is not a ping goes to the handler, unchanged,
/// whatever its body and its credentials.
pub proof fn lemma_non_ping_dispatched(req: Request, next: ConnState, action: ConnAction)
    requires
        steps_to(ConnState::Parsing, ConnEvent::Parsed(Some(req)), next, action),
        req.header._type != RequestType::Ping,
    ensures
        next == ConnState::Handling,
        action == ConnAction::Dispatch(req),
{
}

/// A handler's success is sent back as the handler's own response, with
/// every field unchanged.
pub proof fn lemma_handler_success_sent_unchanged(r: Response, resp: Response)
    requires
        is_handler_reply(Ok::<Response, ResponseError>(r), resp),
    ensures
        resp == r,
        resp.body == r.body,
        resp.header.status == r.header.status,
        resp.header.message == r.header.message,
        resp.header.error == r.header.error,
{
}

/// The status sent back for a handler's outcome is always the status the
/// handler gave, on success and on failure alike.
pub proof fn lemma_handler_status_kept(outcome: Result<Response, ResponseError>, resp: Response)
    requires
        is_handler_reply(outcome, resp),
    ensures
        resp.header.status == match outcome {
            Ok(r) => r.header.status,
            Err(e) => e.status,
        },
{
}

/// On a connection, the reply to a handler's success is that response.
pub proof fn lemma_handled_success_replied(r: Response, next: ConnState, action: ConnAction)
    requires
        steps_to(
            ConnState::Handling,
            ConnEvent::Handled(Ok::<Response, ResponseError>(r)),
            next,
            action,
        ),
    ensures
        next == ConnState::Reading,
        action == ConnAction::Reply(r),
{
}

/// A ping is answered with the pong response and never reaches the handler.
pub proof fn lemma_ping_answered(req: Request, next: ConnState, action: ConnAction)
    requires
        steps_to(ConnState::Parsing, ConnEvent::Parsed(Some(req)), next, action),
        req.header._type == RequestType::Ping,
    ensures
        next == ConnState::Reading,
        action matches ConnAction::Reply(r) && {
            &&& r.body matches Some(b) && b@.len() == 0
            &&& r.header.status == Status::Success
            &&& r.header.message is None
            &&& !r.header.error
        },
{
}

/// A failed read, or a read that brings an empty message, ends the
/// connection.
pub proof fn lemma_failed_or_empty_read_closes(event: ConnEvent, next: ConnState, action: ConnAction)
    requires
        steps_to(ConnState::Reading, event, next, action),
        event is ReadFailed || (event matches ConnEvent::Received(bytes) && bytes@.len() == 0),
    ensures
        next == ConnState::Closed,
        action is Close,
{
}

/// Bytes that hold no request are answered with an error response of status
/// `InvalidBody`, no body and the message "Invalid request format", and the
/// handler is not called.
pub proof fn lemma_unreadable_request_refused(next: ConnState, action: ConnAction)
    requires
        steps_to(ConnState::Parsing, ConnEvent::Parsed(None), next, action),
    ensures
        next == ConnState::Reading,
        action matches ConnAction::Reply(r) && {
            &&& r.body is None
            &&& r.header.status == Status::InvalidBody
            &&& r.header.error
            &&& r.header.message matches Some(m) && m@ == "Invalid request format"@
        },
{
}

/// A handler's failure reaches the client as an error response that carries
/// the failure's status and message.
pub proof fn lemma_handler_failure_reported(
    err: ResponseError,
    next: ConnState,
    action: ConnAction,
)
    requires
        steps_to(
            ConnState::Handling,
            ConnEvent::Handled(Err::<Response, ResponseError>(err)),
            next,
            action,
        ),
    ensures
        action matches ConnAction::Reply(r) && {
            &&& r.header.error
            &&& r.header.status == err.status
            &&& r.header.message == Some(err.message)
            &&& r.body is None
        },
{
}

/// A non-empty message read while the connection waits for one is answered
/// by exactly one response, and the connection goes back to reading: either
/// the parse outcome is answered at once (no request, or a ping), or the
/// request goes to the handler and the handler's outcome is the one reply.
/// This holds whatever the parse and the handler give.
pub proof fn lemma_message_gets_one_reply(
    bytes: Vec<u8>,
    parsed: Option<Request>,
    outcome: Result<Response, ResponseError>,
    s1: ConnState,
    a1: ConnAction,
    s2: ConnState,
    a2: ConnAction,
    s3: ConnState,
    a3: ConnAction,
)
    requires
        bytes@.len() > 0,
        steps_to(ConnState::Reading, ConnEvent::Received(bytes), s1, a1),
        steps_to(s1, ConnEvent::Parsed(parsed), s2, a2),
        a2 is Dispatch ==> steps_to(s2, ConnEvent::Handled(outcome), s3, a3),
    ensures
        s1 == ConnState::Parsing,
        a1 == ConnAction::Parse(bytes),
        a2 is Reply || a2 is Dispatch,
        a2 is Reply ==> s2 == ConnState::Reading,
        a2 is Dispatch ==> s2 == ConnState::Handling && a3 is Reply && s3 == ConnState::Reading,
{
}

} // verus!
