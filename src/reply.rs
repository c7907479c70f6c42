use vstd::prelude::*;

verus! {

/// Why a request was turned away before its handler ran.
#[derive(Clone, Copy, Debug, PartialEq, Eq, Structural)]
pub enum Rejection {
    /// The request has no `Authorization` header.
    MissingHeader,
    /// The `Authorization` header is empty, too long, or holds bytes that
    /// are not visible ASCII.
    InvalidHeader,
    /// The server holds no current token, so no request is admitted.
    HayStackAuthToken,
    /// No route is registered for the path.
    NotFound,
    /// The path is registered, but not for this method.
    MethodNotAllowed,
}

/// A status code and a body, ready to be written to the wire.
pub struct Response {
    pub status: u16,
    pub body: String,
}

impl View for Response {
    type V = (u16, Seq<char>);

    open spec fn view(&self) -> (u16, Seq<char>) {
        (self.status, self.body@)
    }
}

/// The codes that an HTTP status line can carry.
pub open spec fn valid_status(code: u16) -> bool {
    100 <= code < 1000
}

/// Relies on `http::StatusCode::from_u16`, which accepts exactly the codes
/// from 100 to 999.
#[verifier::external_body]
fn is_status_code(code: u16) -> (r: bool)
    ensures
        r == valid_status(code),
{
    http::StatusCode::from_u16(code).is_ok()
}

impl Response {
    /// A response with `body` and status `code`, if `code` is a valid status.
    pub fn with_status(body: &str, code: u16) -> (r: Option<Response>)
        ensures
            r is Some <==> valid_status(code),
            r is Some ==> r->0@ == (code, body@),
    {
        if is_status_code(code) {
            Some(Response { status: code, body: body.to_owned() })
        } else {
            None
        }
    }
}

/// The status code that a rejection is answered with.
pub open spec fn rejection_status(rej: Rejection) -> u16 {
    match rej {
        Rejection::MissingHeader => 400,
        Rejection::InvalidHeader => 400,
        Rejection::HayStackAuthToken => 401,
        Rejection::NotFound => 404,
        Rejection::MethodNotAllowed => 405,
    }
}

/// The generic message that a rejection is answered with.
pub open spec fn rejection_message(rej: Rejection) -> Seq<char> {
    match rej {
        Rejection::MissingHeader => "Missing request header \"Authorization\""@,
        Rejection::InvalidHeader => "Invalid request header \"Authorization\""@,
        Rejection::HayStackAuthToken => "Unauthorized"@,
        Rejection::NotFound => "Not Found"@,
        Rejection::MethodNotAllowed => "Method Not Allowed"@,
    }
}

/// The body of the one handler behind the filter.
pub open spec fn hello_body() -> Seq<char> {
    "Hello"@
}

/// Turns a rejection into its response; no detail beyond a generic message
/// reaches the client.
pub fn rejection_response(rej: Rejection) -> (r: Response)
    ensures
        r@ == (rejection_status(rej), rejection_message(rej)),
{
    let (code, msg) = match rej {
        Rejection::MissingHeader => (400u16, "Missing request header \"Authorization\""),
        Rejection::InvalidHeader => (400u16, "Invalid request header \"Authorization\""),
        Rejection::HayStackAuthToken => (401u16, "Unauthorized"),
        Rejection::NotFound => (404u16, "Not Found"),
        Rejection::MethodNotAllowed => (405u16, "Method Not Allowed"),
    };
    match Response::with_status(msg, code) {
        Some(r) => r,
        None => vstd::pervasive::unreached(),
    }
}

} // verus!
