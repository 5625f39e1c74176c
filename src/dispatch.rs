//! The request that command-line options describe, and what to report for
//! the server's reply.

use vstd::prelude::*;
use crate::json::{Json, keys_sorted, sort_json_keys};

verus! {

#[derive(Clone, Copy, Debug, PartialEq, Eq, Structural)]
pub enum Method {
    Get,
    Post,
}

/// What a request carries.
#[derive(Debug)]
pub enum Body {
    /// No body (a GET).
    Empty,
    /// Form data, `&`-joined `key=value` pairs, sent as a JSON object.
    Form(String),
    /// A JSON document given as text, sent as it is parsed.
    RawJson(String),
}

/// One outgoing call: its URL, method and body.
#[derive(Debug)]
pub struct RequestIntent {
    pub url: String,
    pub method: Method,
    pub body: Body,
}

/// The options cannot form a request.
#[derive(Clone, Copy, Debug, PartialEq, Eq, Structural)]
pub enum UsageError {
    /// `-X` was given without `-d`.
    MissingData,
}

impl RequestIntent {
    /// A GET carries no body and a POST always carries one.
    pub open spec fn wf(&self) -> bool {
        (self.method == Method::Get) <==> (self.body is Empty)
    }

    /// Builds the request from the options: `--json` selects a POST of that
    /// JSON and overrides `-X` and `-d`; otherwise `-X` (with any value)
    /// selects a POST of the form data of `-d`, which it then requires;
    /// otherwise the request is a GET.
    pub fn from_args(url: String, x: Option<String>, data: Option<String>, json: Option<String>) -> (r: Result<
        RequestIntent,
        UsageError,
    >)
        ensures
            r is Ok ==> r.unwrap().wf() && r.unwrap().url == url,
            json is Some ==> r is Ok && r.unwrap().method == Method::Post && r.unwrap().body == Body::RawJson(json.unwrap()),
            json is None && x is Some && data is Some ==> r is Ok && r.unwrap().method == Method::Post
                && r.unwrap().body == Body::Form(data.unwrap()),
            json is None && x is Some && data is None ==> r == Err::<RequestIntent, UsageError>(UsageError::MissingData),
            json is None && x is None ==> r is Ok && r.unwrap().method == Method::Get,
    {
        match json {
            Some(j) => Ok(RequestIntent { url, method: Method::Post, body: Body::RawJson(j) }),
            None => match x {
                Some(_) => match data {
                    Some(d) => Ok(RequestIntent { url, method: Method::Post, body: Body::Form(d) }),
                    None => Err(UsageError::MissingData),
                },
                None => Ok(RequestIntent { url, method: Method::Get, body: Body::Empty }),
            },
        }
    }
}

/// What came back from the transport.
#[derive(Debug)]
pub enum Reply {
    /// No connection could be made (name resolution or connection failure).
    Unreachable,
    /// The server answered with `status`; `body` is its text, or `None` where
    /// it could not be read.
    Received { status: u16, body: Option<String> },
}

/// What to show for a reply.
#[derive(Debug)]
pub enum Report {
    /// The server could not be reached.
    ConnectFailed,
    /// The server answered with a status outside 200 to 299.
    StatusFailed(u16),
    /// The body of a successful reply could not be read: nothing is shown.
    Unreadable,
    /// Show this text as the response body.
    RawBody(String),
    /// The body of a successful reply to a POST: it is tried as JSON next.
    TryJson(String),
    /// Show this object, with its keys in order.
    SortedJson(Json),
}

/// A status in the 2xx range.
pub open spec fn is_success_status(code: u16) -> bool {
    200 <= code <= 299
}

/// Whether `code` is a success status.
pub fn is_success(code: u16) -> (r: bool)
    ensures
        r == is_success_status(code),
{
    200 <= code && code <= 299
}

/// What to do with the reply to a request made with `method`: a failure to
/// connect and a failing status are reported; the body of a successful GET is
/// shown as text, that of a successful POST is tried as JSON first.
pub fn classify_reply(method: Method, reply: Reply) -> (r: Report)
    ensures
        reply is Unreachable ==> r is ConnectFailed,
        reply matches Reply::Received { status, body } ==> {
            &&& !is_success_status(status) ==> r == Report::StatusFailed(status)
            &&& is_success_status(status) && body is None ==> r is Unreadable
            &&& is_success_status(status) && body is Some && method == Method::Get ==> r == Report::RawBody(
                body.unwrap(),
            )
            &&& is_success_status(status) && body is Some && method == Method::Post ==> r == Report::TryJson(
                body.unwrap(),
            )
        },
{
    match reply {
        Reply::Unreachable => Report::ConnectFailed,
        Reply::Received { status, body } => {
            if !is_success(status) {
                Report::StatusFailed(status)
            } else {
                match body {
                    None => Report::Unreadable,
                    Some(text) => match method {
                        Method::Get => Report::RawBody(text),
                        Method::Post => Report::TryJson(text),
                    },
                }
            }
        },
    }
}

/// What to show for the body `text` of a successful POST, given `parsed`, the
/// JSON document it holds if it holds one: an object is shown with its keys in
/// order; anything else, the text as it is.
pub fn present_json(text: String, parsed: Option<Json>) -> (r: Report)
    ensures
        parsed is Some && parsed.unwrap() is Object ==> {
            &&& r is SortedJson
            &&& r->SortedJson_0 is Object
            &&& keys_sorted(r->SortedJson_0->Object_0@)
            &&& r->SortedJson_0->Object_0@.to_multiset() == parsed.unwrap()->Object_0@.to_multiset()
        },
        !(parsed is Some && parsed.unwrap() is Object) ==> r == Report::RawBody(text),
{
    match parsed {
        Some(value) => match sort_json_keys(value) {
            Some(sorted) => Report::SortedJson(sorted),
            None => Report::RawBody(text),
        },
        None => Report::RawBody(text),
    }
}

impl Report {
    /// The fixed line that opens this report, where it has one.
    pub fn heading(&self) -> (r: Option<&'static str>)
        ensures
            self is ConnectFailed ==> r == Some(
                "Error: Unable to connect to the server. Perhaps the network is offline or the server hostname cannot be resolved.",
            ),
            self is RawBody ==> r == Some("Response body:"),
            self is SortedJson ==> r == Some("Response body (JSON with sorted keys):"),
            self is StatusFailed || self is Unreadable || self is TryJson ==> r is None,
    {
        match self {
            Report::ConnectFailed => Some(
                "Error: Unable to connect to the server. Perhaps the network is offline or the server hostname cannot be resolved.",
            ),
            Report::RawBody(_) => Some("Response body:"),
            Report::SortedJson(_) => Some("Response body (JSON with sorted keys):"),
            _ => None,
        }
    }
}

} // verus!
