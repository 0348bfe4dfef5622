use vstd::prelude::*;
use vstd::string::*;
use vstd::utf8::*;

verus! {

/// The operation a query asks for.
#[derive(Debug, Clone, Copy, PartialEq, Eq, Structural)]
pub enum OpCode {
    Insert,
    Get,
    Update,
    Delete,
}

/// A stored record.
#[derive(Debug, Clone)]
pub struct RepelData {
    pub data: Vec<u8>,
    pub op: OpCode,
    pub timestamp: i64,
}

/// The body of a query.
#[derive(Debug, Clone)]
pub struct RequestBody {
    pub op: OpCode,
    pub data: Vec<u8>,
}

/// What kind of request a client sends.
#[derive(Debug, Clone, Copy, PartialEq, Eq, Structural)]
pub enum RequestType {
    Auth,
    Ping,
    Query,
}

/// The header of a request. On the wire `_type` is the field `type`.
#[derive(Debug, Clone)]
pub struct RequestHeader {
    pub auth: Option<String>,
    pub _type: RequestType,
}

/// The outcome that a response reports.
#[derive(Debug, Clone, Copy, PartialEq, Eq, Structural)]
pub enum Status {
    /// The request succeeded (`Ok` on the wire).
    Success,
    InvalidQuery,
    NotFound,
    Unauthorized,
    AlreadyExists,
    InvalidBody,
    SyntaxError,
    InternalError,
}

/// The header of a response.
#[derive(Debug, Clone)]
pub struct ResponseHeader {
    pub status: Status,
    pub message: Option<String>,
    pub error: bool,
}

/// A failure that a request handler reports.
#[derive(Debug, Clone)]
pub struct ResponseError {
    pub message: String,
    pub status: Status,
}

/// A request as a client sends it.
#[derive(Debug, Clone)]
pub struct Request {
    pub body: Option<RequestBody>,
    pub header: RequestHeader,
}

/// A response as the server sends it.
#[derive(Debug, Clone)]
pub struct Response {
    pub body: Option<Vec<u8>>,
    pub header: ResponseHeader,
}

/// The answer to bytes that do not hold a well-formed request: no body,
/// status `InvalidBody`, the message "Invalid request format", flagged as an
/// error.
pub open spec fn is_invalid_body_response(r: Response) -> bool {
    &&& r.body is None
    &&& r.header.status == Status::InvalidBody
    &&& r.header.error
    &&& r.header.message matches Some(m) && m@ == "Invalid request format"@
}

/// The answer to a request whose bytes could not be read as a request.
pub fn invalid_body_response() -> (res: Response)
    ensures
        is_invalid_body_response(res),
{
    Response {
        body: None,
        header: ResponseHeader {
            status: Status::InvalidBody,
            message: Some(String::from_str("Invalid request format")),
            error: true,
        },
    }
}

/// Takes the outcome of reading a request from its bytes (`None` where they
/// do not hold one) and gives the request, or the response that refuses it.
pub fn process_req(parsed: Option<Request>) -> (res: Result<Request, Response>)
    ensures
        match parsed {
            Some(req) => res == Ok::<Request, Response>(req),
            None => res matches Err(resp) && is_invalid_body_response(resp),
        },
{
    match parsed {
        Some(req) => Ok(req),
        None => Err(invalid_body_response()),
    }
}

/// `std::str::from_utf8`: the text that the bytes encode, or `None` where
/// they are not valid UTF-8.
#[verifier::external_body]
fn utf8_text(bytes: &[u8]) -> (res: Option<&str>)
    ensures
        res is Some <==> valid_utf8(bytes@),
        res matches Some(text) ==> text.spec_bytes() == bytes@,
{
    std::str::from_utf8(bytes).ok()
}

/// The text of a request's bytes, which the wire format requires to be
/// UTF-8; `None` where they are not.
pub fn request_text(buf: &[u8]) -> (res: Option<&str>)
    ensures
        res is Some <==> valid_utf8(buf@),
        res matches Some(text) ==> text.spec_bytes() == buf@,
{
    utf8_text(buf)
}

} // verus!
