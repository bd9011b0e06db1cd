//! The request that comes in and the response that goes out.

use crate::json;
use crate::json::Member;
use vstd::prelude::*;

verus! {

/// What a handler reads of the event that the platform hands over: the body,
/// where there is one. Method and path play no part.
#[derive(Debug, PartialEq, Eq)]
pub struct Request {
    pub body: Option<String>,
}

pub struct RequestView {
    pub body: Option<Seq<char>>,
}

impl View for Request {
    type V = RequestView;

    open spec fn view(&self) -> RequestView {
        RequestView {
            body: match self.body {
                Some(text) => Some(text@),
                None => None,
            },
        }
    }
}

/// One header of a response.
#[derive(Debug, PartialEq, Eq)]
pub struct Header {
    pub name: String,
    pub value: String,
}

impl View for Header {
    type V = (Seq<char>, Seq<char>);

    open spec fn view(&self) -> (Seq<char>, Seq<char>) {
        (self.name@, self.value@)
    }
}

impl DeepView for Header {
    type V = (Seq<char>, Seq<char>);

    open spec fn deep_view(&self) -> (Seq<char>, Seq<char>) {
        self@
    }
}

/// The response to send: a status code, the headers and a body of JSON text.
#[derive(Debug, PartialEq, Eq)]
pub struct Response {
    pub status_code: u16,
    pub headers: Vec<Header>,
    pub body: String,
    pub is_base64_encoded: bool,
}

pub struct ResponseView {
    pub status_code: u16,
    pub headers: Seq<(Seq<char>, Seq<char>)>,
    pub body: Seq<char>,
    pub is_base64_encoded: bool,
}

impl View for Response {
    type V = ResponseView;

    open spec fn view(&self) -> ResponseView {
        ResponseView {
            status_code: self.status_code,
            headers: self.headers.deep_view(),
            body: self.body@,
            is_base64_encoded: self.is_base64_encoded,
        }
    }
}

/// The header that says that a body is JSON.
pub open spec fn json_header() -> (Seq<char>, Seq<char>) {
    ("content-type"@, "application/json"@)
}

impl ResponseView {
    /// The response with this status and body, as every handler sends it: one
    /// header, which says that the body is JSON, and the body as plain text.
    pub open spec fn json(status_code: u16, body: Seq<char>) -> ResponseView {
        ResponseView { status_code, headers: seq![json_header()], body, is_base64_encoded: false }
    }

    /// Whether the response says that its body is JSON.
    pub open spec fn says_json(self) -> bool {
        self.headers.contains(json_header())
    }
}

/// The body that names an error.
pub open spec fn error_text(error: Seq<char>) -> Seq<char> {
    json::object_text(seq![("error"@, json::string_text(error))])
}

/// The body that names an error and gives the message of its cause.
pub open spec fn failure_text(error: Seq<char>, message: Seq<char>) -> Seq<char> {
    json::object_text(
        seq![("error"@, json::string_text(error)), ("message"@, json::string_text(message))],
    )
}

impl Response {
    /// A response with the given status and a body that is JSON already.
    pub fn json(status_code: u16, body: String) -> (response: Response)
        ensures
            response@ == ResponseView::json(status_code, body@),
            response@.says_json(),
    {
        let mut headers: Vec<Header> = Vec::new();
        headers.push(
            Header {
                name: String::from_str("content-type"),
                value: String::from_str("application/json"),
            },
        );
        let response = Response { status_code, headers, body, is_base64_encoded: false };
        assert(response@.headers =~= seq![json_header()]);
        assert(response@.headers[0] == json_header());
        response
    }

    /// A response that names an error.
    pub fn error(status_code: u16, error: &str) -> (response: Response)
        ensures
            response@ == ResponseView::json(status_code, error_text(error@)),
            response@.says_json(),
    {
        let mut members: Vec<Member> = Vec::new();
        members.push(Member { key: String::from_str("error"), value: json::string(error) });
        assert(members.deep_view() =~= seq![("error"@, json::string_text(error@))]);
        Response::json(status_code, json::object(&members))
    }

    /// A response that names an error and gives the message of its cause.
    pub fn failure(status_code: u16, error: &str, message: &str) -> (response: Response)
        ensures
            response@ == ResponseView::json(status_code, failure_text(error@, message@)),
            response@.says_json(),
    {
        let mut members: Vec<Member> = Vec::new();
        members.push(Member { key: String::from_str("error"), value: json::string(error) });
        members.push(Member { key: String::from_str("message"), value: json::string(message) });
        assert(members.deep_view() =~= seq![
            ("error"@, json::string_text(error@)),
            ("message"@, json::string_text(message@)),
        ]);
        Response::json(status_code, json::object(&members))
    }
}

} // verus!
