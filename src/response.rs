use vstd::prelude::*;

verus! {

/// HTTP status of a successful route.
pub const STATUS_OK: u16 = 200;

/// HTTP status of a request whose own input was missing or malformed.
pub const STATUS_BAD_REQUEST: u16 = 400;

/// HTTP status of a request the upstream node could not satisfy.
pub const STATUS_SERVER_ERROR: u16 = 500;

/// Why a route could not produce its value.
#[derive(Debug)]
pub enum GatewayError {
    /// The request's input was missing or malformed; no upstream call was made.
    BadRequest(String),
    /// The transport or the node failed; carries its message.
    Upstream(String),
}

impl GatewayError {
    /// Client-caused failures map to 4xx, upstream failures to 5xx.
    pub open spec fn http_status(&self) -> u16 {
        match self {
            GatewayError::BadRequest(_) => STATUS_BAD_REQUEST,
            GatewayError::Upstream(_) => STATUS_SERVER_ERROR,
        }
    }

    pub open spec fn text(&self) -> Seq<char> {
        match self {
            GatewayError::BadRequest(m) => m@,
            GatewayError::Upstream(m) => m@,
        }
    }

    pub fn status(&self) -> (r: u16)
        ensures
            r == self.http_status(),
    {
        match self {
            GatewayError::BadRequest(_) => STATUS_BAD_REQUEST,
            GatewayError::Upstream(_) => STATUS_SERVER_ERROR,
        }
    }

    pub fn into_message(self) -> (r: String)
        ensures
            r@ == self.text(),
    {
        match self {
            GatewayError::BadRequest(m) => m,
            GatewayError::Upstream(m) => m,
        }
    }
}

/// What a route hands back to the HTTP layer: a status and a body.
#[derive(Debug)]
pub struct Response {
    pub status: u16,
    pub body: String,
}

/// The response that reports a failure: its status and its message.
pub fn error_response(e: GatewayError) -> (r: Response)
    ensures
        r.status == e.http_status(),
        r.body@ == e.text(),
{
    let status = e.status();
    Response { status, body: e.into_message() }
}

/// The response for a route's outcome: 200 with the body on success, the
/// failure's status and message otherwise.
pub fn respond(outcome: Result<String, GatewayError>) -> (r: Response)
    ensures
        match outcome {
            Ok(body) => r.status == STATUS_OK && r.body@ == body@,
            Err(e) => r.status == e.http_status() && r.body@ == e.text(),
        },
{
    match outcome {
        Ok(body) => Response { status: STATUS_OK, body },
        Err(e) => error_response(e),
    }
}

} // verus!
