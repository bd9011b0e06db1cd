//! Listing the users.
//!
//! The caller reads the whole table once and hands over what came back. No
//! further page is asked for: where the table answers in several pages, only
//! the first is listed.

use crate::http::{failure_text, Request, Response, ResponseView};
use crate::item::{AttributeView, Item};
use crate::json;
use crate::json::Member;
use crate::record::{record_of, record_text, Record, RecordView};
use vstd::prelude::*;

verus! {

/// The record that an item holds, if it holds one.
pub open spec fn readable(item: Map<Seq<char>, AttributeView>) -> Option<RecordView> {
    match record_of(item) {
        Ok(record) => Some(record),
        Err(_) => None,
    }
}

/// The records of the items that hold one, in the order of the items. An
/// item that lacks a field, or holds one that is no text, is passed over.
pub open spec fn listed(items: Seq<Map<Seq<char>, AttributeView>>) -> Seq<RecordView> {
    items.filter_map(|item: Map<Seq<char>, AttributeView>| readable(item))
}

/// The body that lists the users and says how many they are.
pub open spec fn list_text(users: Seq<RecordView>) -> Seq<char> {
    json::object_text(
        seq![
            ("users"@, json::array_text(users.map_values(|user: RecordView| record_text(user)))),
            ("count"@, json::number_text(users.len())),
        ],
    )
}

/// The response to a listing, by what reading the table gave: the items, or
/// the message of the failure.
pub open spec fn outcome(scanned: Result<Seq<Map<Seq<char>, AttributeView>>, Seq<char>>) -> ResponseView {
    match scanned {
        Ok(items) => ResponseView::json(200, list_text(listed(items))),
        Err(message) => ResponseView::json(500, failure_text("Failed to get users"@, message)),
    }
}

/// What reading the table gave, as plain values.
pub open spec fn scanned_view(scanned: Result<Vec<Item>, String>) -> Result<
    Seq<Map<Seq<char>, AttributeView>>,
    Seq<char>,
> {
    match scanned {
        Ok(items) => Ok(items.deep_view()),
        Err(message) => Err(message@),
    }
}

/// Picks the users out of the items of the table. Items that hold no record
/// are dropped without a word.
pub fn users(items: &Vec<Item>) -> (users: Vec<Record>)
    ensures
        users.deep_view() == listed(items.deep_view()),
{
    let ghost all = items.deep_view();
    let mut users: Vec<Record> = Vec::new();
    let mut i: usize = 0;
    while i < items.len()
        invariant
            i <= items@.len(),
            all == items.deep_view(),
            users.deep_view() == listed(all.take(i as int)),
        decreases items@.len() - i,
    {
        proof {
            all.lemma_filter_map_take_succ(|item: Map<Seq<char>, AttributeView>| readable(item), i as int);
            assert(all[i as int] == items@[i as int]@);
        }
        let ghost before = users.deep_view();
        match Record::from_item(&items[i]) {
            Ok(record) => {
                users.push(record);
                assert(users.deep_view() =~= before + seq![record@]);
            },
            Err(_) => {
                assert(users.deep_view() =~= before + Seq::<RecordView>::empty());
            },
        }
        i += 1;
    }
    assert(all.take(i as int) =~= all);
    users
}

/// Writes the body that lists `users`.
pub fn list_body(users: &Vec<Record>) -> (body: String)
    ensures
        body@ == list_text(users.deep_view()),
{
    let ghost all = users.deep_view();
    let mut written: Vec<String> = Vec::new();
    let mut i: usize = 0;
    while i < users.len()
        invariant
            i <= users@.len(),
            all == users.deep_view(),
            written.deep_view() == all.take(i as int).map_values(|user: RecordView| record_text(user)),
        decreases users@.len() - i,
    {
        let ghost before = written.deep_view();
        let text = users[i].to_json();
        written.push(text);
        proof {
            assert(all[i as int] == users@[i as int]@);
            assert(written.deep_view() =~= before.push(text@));
            assert(written.deep_view() =~= all.take(i + 1).map_values(
                |user: RecordView| record_text(user),
            ));
        }
        i += 1;
    }
    assert(all.take(i as int) =~= all);
    let mut members: Vec<Member> = Vec::new();
    members.push(Member { key: String::from_str("users"), value: json::array(&written) });
    members.push(Member { key: String::from_str("count"), value: json::number(users.len()) });
    assert(members.deep_view() =~= seq![
        ("users"@, json::array_text(all.map_values(|user: RecordView| record_text(user)))),
        ("count"@, json::number_text(all.len())),
    ]);
    json::object(&members)
}

/// Answers a request for the list of users, given what reading the table
/// gave. Nothing of the request is read.
///
/// With the items of the table: status 200 and the users among them, with
/// their count. With the message of a failure: status 500 and the message.
pub fn handler(request: &Request, scanned: Result<Vec<Item>, String>) -> (response: Response)
    ensures
        response@ == outcome(scanned_view(scanned)),
        response@.says_json(),
{
    match scanned {
        Ok(items) => {
            let users = users(&items);
            Response::json(200, list_body(&users))
        },
        Err(message) => Response::failure(500, "Failed to get users", message.as_str()),
    }
}

} // verus!
