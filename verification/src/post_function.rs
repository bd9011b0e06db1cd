//! Creating a user.
//!
//! The request is looked at first: it is answered at once, or it asks for
//! one write to the table. Once the caller has made that write, what came of
//! it gives the response.

use crate::http::{error_text, failure_text, Request, RequestView, Response, ResponseView};
use crate::item::{AttributeView, Item};
use crate::json;
use crate::json::Member;
use crate::record::{item_of, record_of, record_text, Record, RecordView};
use vstd::prelude::*;

verus! {

/// What a request for a new user calls for.
#[derive(Debug)]
pub enum Action {
    /// Store `item`, which holds `record`, under the record's `id`; then
    /// answer by what came of the write.
    Write { record: Record, item: Item },
    /// Answer at once.
    Reply(Response),
}

pub enum ActionView {
    Write { record: RecordView, item: Map<Seq<char>, AttributeView> },
    Reply(ResponseView),
}

impl View for Action {
    type V = ActionView;

    open spec fn view(&self) -> ActionView {
        match self {
            Action::Write { record, item } => ActionView::Write { record: record@, item: item@ },
            Action::Reply(response) => ActionView::Reply(response@),
        }
    }
}

impl ActionView {
    /// Whether the response, where there is one, says that its body is JSON.
    pub open spec fn says_json(self) -> bool {
        match self {
            ActionView::Write { .. } => true,
            ActionView::Reply(response) => response.says_json(),
        }
    }
}

/// The response to a request whose body cannot be taken for a record.
pub open spec fn invalid_body(message: Seq<char>) -> ResponseView {
    ResponseView::json(400, failure_text("Invalid request body"@, message))
}

/// What the members of a body call for, or the message with which the body
/// was refused as JSON: a write of the record that the members hold, or
/// status 400 with the message.
pub open spec fn accepted(parsed: Result<Map<Seq<char>, AttributeView>, Seq<char>>) -> ActionView {
    match parsed {
        Err(message) => ActionView::Reply(invalid_body(message)),
        Ok(members) => match record_of(members) {
            Err(error) => ActionView::Reply(invalid_body(error.message_text())),
            Ok(record) => ActionView::Write { record, item: item_of(record) },
        },
    }
}

/// A body as its members, by what `json::object_members` makes of it.
pub open spec fn parsed(body: Seq<char>) -> Result<Map<Seq<char>, AttributeView>, Seq<char>> {
    match json::object_members(body) {
        Ok(members) => Ok(json::members_item(members)),
        Err(message) => Err(message),
    }
}

/// What a request calls for: status 400 where it has no body, and else what
/// its body calls for.
pub open spec fn decided(request: RequestView) -> ActionView {
    match request.body {
        None => ActionView::Reply(ResponseView::json(400, error_text("Request body is required"@))),
        Some(body) => accepted(parsed(body)),
    }
}

/// The body that tells of the user created.
pub open spec fn created_text(record: RecordView) -> Seq<char> {
    json::object_text(
        seq![
            ("message"@, json::string_text("User created successfully"@)),
            ("user"@, record_text(record)),
        ],
    )
}

/// The response once the write of `record` was tried: status 201 with the
/// record where it was made, status 500 with the message where it failed.
pub open spec fn completed(record: RecordView, written: Result<(), Seq<char>>) -> ResponseView {
    match written {
        Ok(_) => ResponseView::json(201, created_text(record)),
        Err(message) => ResponseView::json(500, failure_text("Failed to create user"@, message)),
    }
}

/// What came of parsing a body, as plain values.
pub open spec fn parsed_view(parsed: Result<Item, String>) -> Result<
    Map<Seq<char>, AttributeView>,
    Seq<char>,
> {
    match parsed {
        Ok(members) => Ok(members@),
        Err(message) => Err(message@),
    }
}

/// What came of the write, as plain values.
pub open spec fn written_view(written: Result<(), String>) -> Result<(), Seq<char>> {
    match written {
        Ok(_) => Ok(()),
        Err(message) => Err(message@),
    }
}

/// Decides on a body that was parsed: `parsed` holds its members, or the
/// message with which it was refused as JSON.
pub fn accept(parsed: Result<Item, String>) -> (action: Action)
    ensures
        action@ == accepted(parsed_view(parsed)),
        action@.says_json(),
{
    match parsed {
        Err(message) => Action::Reply(
            Response::failure(400, "Invalid request body", message.as_str()),
        ),
        Ok(members) => match Record::from_item(&members) {
            Err(error) => Action::Reply(
                Response::failure(400, "Invalid request body", error.message().as_str()),
            ),
            Ok(record) => {
                let item = record.to_item();
                Action::Write { record, item }
            },
        },
    }
}

/// Decides on a request for a new user.
///
/// Without a body the answer is status 400. A body that is no JSON object,
/// or that lacks one of `id`, `name` and `email` as a string, is answered
/// with status 400 and the reason. Any other body asks for the write of the
/// record that it holds.
pub fn handler(request: &Request) -> (action: Action)
    ensures
        action@ == decided(request@),
        action@.says_json(),
{
    match &request.body {
        None => Action::Reply(Response::error(400, "Request body is required")),
        Some(body) => accept(json::parse_object(body.as_str())),
    }
}

/// Writes the body that tells of the user created.
pub fn created_body(record: &Record) -> (body: String)
    ensures
        body@ == created_text(record@),
{
    let mut members: Vec<Member> = Vec::new();
    members.push(
        Member {
            key: String::from_str("message"),
            value: json::string("User created successfully"),
        },
    );
    members.push(Member { key: String::from_str("user"), value: record.to_json() });
    assert(members.deep_view() =~= seq![
        ("message"@, json::string_text("User created successfully"@)),
        ("user"@, record_text(record@)),
    ]);
    json::object(&members)
}

/// Answers the request once the write that it asked for was tried.
pub fn complete(record: &Record, written: Result<(), String>) -> (response: Response)
    ensures
        response@ == completed(record@, written_view(written)),
        response@.says_json(),
{
    match written {
        Ok(_) => Response::json(201, created_body(record)),
        Err(message) => Response::failure(500, "Failed to create user", message.as_str()),
    }
}

} // verus!
