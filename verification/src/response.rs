//! Transport-level responses as plain values.
//!
//! The service answers with four status codes only. A response built here is
//! handed to the transport layer as it is: status, body text, and whether the
//! body is an HTML page.

use vstd::prelude::*;
use vstd::string::StringExecFns;

verus! {

/// The status codes this service answers with.
#[derive(Clone, Copy, Debug, PartialEq, Eq, Structural)]
pub enum StatusCode {
    Success,
    BadRequest,
    NotFound,
    InternalServerError,
}

impl StatusCode {
    /// The numeric code on the wire.
    pub open spec fn code(self) -> int {
        match self {
            StatusCode::Success => 200,
            StatusCode::BadRequest => 400,
            StatusCode::NotFound => 404,
            StatusCode::InternalServerError => 500,
        }
    }

    /// Whether the code reports an internal condition (5xx).
    pub open spec fn is_server_error(self) -> bool {
        500 <= self.code() < 600
    }

    pub fn as_u16(self) -> (n: u16)
        ensures
            n == self.code(),
    {
        match self {
            StatusCode::Success => 200,
            StatusCode::BadRequest => 400,
            StatusCode::NotFound => 404,
            StatusCode::InternalServerError => 500,
        }
    }
}

/// One response: a status, a body, and the body's kind.
#[derive(Debug)]
pub struct Response {
    pub status: StatusCode,
    /// `true` when the body is an HTML page and must be announced as `text/html`.
    pub html: bool,
    pub body: String,
}

/// What a [`Response`] says, with the body as a sequence of characters.
pub ghost struct ResponseView {
    pub status: StatusCode,
    pub html: bool,
    pub body: Seq<char>,
}

impl View for Response {
    type V = ResponseView;

    open spec fn view(&self) -> ResponseView {
        ResponseView { status: self.status, html: self.html, body: self.body@ }
    }
}

/// The plain response with the given status and body text.
pub open spec fn plain(status: StatusCode, body: Seq<char>) -> ResponseView {
    ResponseView { status, html: false, body }
}

/// Body of every 500 response: it never carries internal detail.
pub open spec fn internal_error_text() -> Seq<char> {
    "Internal server error"@
}

/// Body of every 404 response.
pub open spec fn not_found_text() -> Seq<char> {
    "Not found"@
}

pub fn make_response(status: StatusCode, body: String) -> (r: Response)
    ensures
        r@ == plain(status, body@),
{
    Response { status, html: false, body }
}

pub fn do400(reason: String) -> (r: Response)
    ensures
        r@ == plain(StatusCode::BadRequest, reason@),
{
    make_response(StatusCode::BadRequest, reason)
}

pub fn do500() -> (r: Response)
    ensures
        r@ == plain(StatusCode::InternalServerError, internal_error_text()),
{
    make_response(StatusCode::InternalServerError, String::from_str("Internal server error"))
}

pub fn do404() -> (r: Response)
    ensures
        r@ == plain(StatusCode::NotFound, not_found_text()),
{
    make_response(StatusCode::NotFound, String::from_str("Not found"))
}

pub fn do200(body: String) -> (r: Response)
    ensures
        r@ == plain(StatusCode::Success, body@),
{
    make_response(StatusCode::Success, body)
}

/// A 200 response whose body is a rendered HTML page.
pub fn page(body: String) -> (r: Response)
    ensures
        r@ == (ResponseView { status: StatusCode::Success, html: true, body: body@ }),
{
    Response { status: StatusCode::Success, html: true, body }
}

} // verus!
