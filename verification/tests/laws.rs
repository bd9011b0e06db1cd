use users_api::get_function;
use users_api::http::{Header, Request, Response};
use users_api::item::{Attribute, Item};
use users_api::post_function::{self, Action};
use users_api::record::Record;
use users_api::store::TABLE_NAME;

/// A table in memory: a write puts the item under the text of its `id`, in
/// place of what stood there; a read hands out every item.
struct Table {
    items: Vec<(String, Item)>,
}

impl Table {
    fn new() -> Table {
        Table { items: Vec::new() }
    }

    fn put(&mut self, item: Item) {
        let key = match item.get("id") {
            Some(Attribute::Text(id)) => id.clone(),
            _ => panic!("an item without an id"),
        };
        self.items.retain(|(held, _)| *held != key);
        self.items.push((key, item));
    }

    fn scan(self) -> Vec<Item> {
        self.items.into_iter().map(|(_, item)| item).collect()
    }
}

fn body_of(record: &Record) -> String {
    let mut members = serde_json::Map::new();
    members.insert("id".to_string(), serde_json::Value::String(record.id.clone()));
    members.insert("name".to_string(), serde_json::Value::String(record.name.clone()));
    members.insert("email".to_string(), serde_json::Value::String(record.email.clone()));
    serde_json::Value::Object(members).to_string()
}

fn create(table: &mut Table, record: &Record) -> Response {
    match post_function::handler(&Request { body: Some(body_of(record)) }) {
        Action::Write { record, item } => {
            table.put(item);
            post_function::complete(&record, Ok(()))
        },
        Action::Reply(response) => response,
    }
}

fn says_json(response: &Response) -> bool {
    response.headers
        == vec![Header { name: "content-type".to_string(), value: "application/json".to_string() }]
}

fn record(id: &str, name: &str, email: &str) -> Record {
    Record { id: id.to_string(), name: name.to_string(), email: email.to_string() }
}

#[test]
fn table_name_is_users() {
    assert_eq!(TABLE_NAME, "users");
}

#[test]
fn created_user_is_listed() {
    let records = vec![
        record("u1", "Alice", "a@x.com"),
        record("u2", "Bob \"the builder\"", "b@x.com"),
        record("ü3", "Zoë\n", "z\\@x.com"),
    ];
    let mut table = Table::new();
    let mut odd = Item::new();
    odd.insert("id".to_string(), Attribute::Text("odd".to_string()));
    odd.insert("name".to_string(), Attribute::Other);
    table.put(odd);
    for record in &records {
        assert_eq!(create(&mut table, record).status_code, 201);
    }
    let response = get_function::handler(&Request { body: None }, Ok(table.scan()));
    assert_eq!(response.status_code, 200);
    let body: serde_json::Value = serde_json::from_str(&response.body).unwrap();
    let listed = body["users"].as_array().unwrap();
    assert_eq!(body["count"], 3);
    assert_eq!(listed.len(), 3);
    for record in &records {
        assert!(listed.iter().any(|user| {
            user["id"] == record.id.as_str()
                && user["name"] == record.name.as_str()
                && user["email"] == record.email.as_str()
        }));
    }
}

#[test]
fn user_created_twice_is_listed_once_as_written_last() {
    let mut table = Table::new();
    assert_eq!(create(&mut table, &record("u1", "Alice", "a@x.com")).status_code, 201);
    assert_eq!(create(&mut table, &record("u1", "Alicia", "al@x.com")).status_code, 201);
    let listed = get_function::users(&table.scan());
    assert_eq!(listed, vec![record("u1", "Alicia", "al@x.com")]);
}

#[test]
fn every_response_says_json() {
    let alice = record("u1", "Alice", "a@x.com");
    let mut responses = vec![
        get_function::handler(&Request { body: None }, Ok(Vec::new())),
        get_function::handler(&Request { body: None }, Ok(vec![alice.to_item(), Item::new()])),
        get_function::handler(&Request { body: None }, Err("down".to_string())),
        post_function::complete(&alice, Ok(())),
        post_function::complete(&alice, Err("down".to_string())),
        Response::json(204, "null".to_string()),
        Response::error(404, "Not found"),
        Response::failure(503, "Unavailable", "later"),
    ];
    for body in [None, Some("{not json"), Some("{}"), Some("[]"), Some("{\"id\":1}")] {
        match post_function::handler(&Request { body: body.map(|text| text.to_string()) }) {
            Action::Reply(response) => responses.push(response),
            Action::Write { record, .. } => panic!("a write of {:?}", record),
        }
    }
    let codes: Vec<u16> = responses.iter().map(|response| response.status_code).collect();
    assert_eq!(codes, vec![200, 200, 500, 201, 500, 204, 404, 503, 400, 400, 400, 400, 400]);
    for response in &responses {
        assert!(says_json(response), "{:?}", response);
        assert!(!response.is_base64_encoded);
        assert!(serde_json::from_str::<serde_json::Value>(&response.body).is_ok());
    }
}

#[test]
fn response_constructors_write_their_bodies() {
    assert_eq!(Response::json(200, "[]".to_string()).body, "[]");
    assert_eq!(Response::error(400, "no \"body\"").body, "{\"error\":\"no \\\"body\\\"\"}");
    assert_eq!(
        Response::failure(500, "Failed", "a\\b").body,
        "{\"error\":\"Failed\",\"message\":\"a\\\\b\"}"
    );
    assert_eq!(Response::failure(500, "Failed", "why").status_code, 500);
}
