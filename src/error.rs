use vstd::prelude::*;

use crate::method::Method;

verus! {

/// serde_json's JSON value, carried through as it is.
#[verifier::external_type_specification]
#[verifier::external_body]
pub struct ExJsonValue(serde_json::Value);

/// Whether serde_json reads `s` as one JSON value: a well-formed document,
/// within the parser's nesting limit, with nothing after it but whitespace.
pub uninterp spec fn is_json_text(s: Seq<char>) -> bool;

/// Relies on serde_json::from_str into a `serde_json::Value`, for whether the
/// text parses; its result depends on the text alone.
#[verifier::external_body]
fn parse_json(text: &str) -> (r: Option<serde_json::Value>)
    ensures
        r is Some <==> is_json_text(text@),
{
    serde_json::from_str::<serde_json::Value>(text).ok()
}

/// The body that a failed call carried, as far as it could be read.
#[derive(Debug)]
pub enum Content {
    /// The body parsed as JSON.
    Json(serde_json::Value),
    /// The body as text, where it was no JSON, or a placeholder where it
    /// could not be read at all.
    Text(String),
}

/// The placeholder for a body that could not be read.
pub open spec fn unreadable_body() -> Seq<char> {
    "<failed to retrieve content>"@
}

/// The content that a server error carries for a body read as `body`
/// (`None`: the body could not be read).
pub open spec fn content_of(c: Content, body: Option<String>) -> bool {
    match body {
        None => c is Text && c->Text_0@ == unreadable_body(),
        Some(t) => if is_json_text(t@) {
            c is Json
        } else {
            c is Text && c->Text_0@ == t@
        },
    }
}

/// Why a call failed, by the stage at which it failed. Each variant names
/// the verb and the endpoint of the call.
#[derive(Debug)]
pub enum Error {
    /// The request could not be built.
    RequestBuild { method: Method, endpoint: String, source: String },
    /// The request could not be sent, or no reply came.
    RequestSend { method: Method, endpoint: String, source: String },
    /// The reply's status is not a success.
    Server { method: Method, endpoint: String, status: String, content: Content, source: String },
    /// The reply's media type is not the one the call decodes.
    ContentType {
        method: Method,
        endpoint: String,
        expected: Vec<String>,
        received: Option<String>,
    },
    /// The reply's body could not be read.
    ResponseBody { method: Method, endpoint: String, source: String },
    /// The body was read but is not of the expected shape.
    Deserializing {
        method: Method,
        endpoint: String,
        typename: String,
        content: String,
        source: String,
    },
}

impl Error {
    /// The verb of the call that failed.
    pub fn method(&self) -> (r: Method)
        ensures
            r == self.spec_method(),
    {
        match self {
            Error::RequestBuild { method, .. } => *method,
            Error::RequestSend { method, .. } => *method,
            Error::Server { method, .. } => *method,
            Error::ContentType { method, .. } => *method,
            Error::ResponseBody { method, .. } => *method,
            Error::Deserializing { method, .. } => *method,
        }
    }

    pub open spec fn spec_method(&self) -> Method {
        match self {
            Error::RequestBuild { method, .. } => *method,
            Error::RequestSend { method, .. } => *method,
            Error::Server { method, .. } => *method,
            Error::ContentType { method, .. } => *method,
            Error::ResponseBody { method, .. } => *method,
            Error::Deserializing { method, .. } => *method,
        }
    }
}

/// The error for a reply whose status is not a success: `status` is the
/// status line, `body` the body as text where it could be read. A body that
/// parses as JSON is kept as JSON; any other is kept as text.
pub fn server_error(
    method: Method,
    endpoint: &str,
    status: String,
    body: Option<String>,
    source: String,
) -> (r: Error)
    ensures
        r is Server,
        r->Server_method == method,
        r->Server_endpoint@ == endpoint@,
        r->Server_status == status,
        r->Server_source == source,
        content_of(r->Server_content, body),
{
    let content = match body {
        None => Content::Text("<failed to retrieve content>".to_owned()),
        Some(text) => match parse_json(text.as_str()) {
            Some(v) => Content::Json(v),
            None => Content::Text(text),
        },
    };
    Error::Server { method, endpoint: endpoint.to_owned(), status, content, source }
}

} // verus!
