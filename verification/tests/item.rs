use users_api::item::{Attribute, Entry, Item};

fn text(value: &str) -> Attribute {
    Attribute::Text(value.to_string())
}

#[test]
fn new_item_is_empty() {
    let item = Item::new();
    assert!(item.entries().is_empty());
    assert_eq!(item.get("id"), None);
    assert_eq!(item.get(""), None);
}

#[test]
fn insert_then_get() {
    let mut item = Item::new();
    item.insert("id".to_string(), text("u1"));
    item.insert("age".to_string(), Attribute::Other);
    item.insert("".to_string(), text(""));
    assert_eq!(item.get("id"), Some(&text("u1")));
    assert_eq!(item.get("age"), Some(&Attribute::Other));
    assert_eq!(item.get(""), Some(&text("")));
    assert_eq!(item.get("ID"), None);
    assert_eq!(item.get("i"), None);
    assert_eq!(item.entries().len(), 3);
}

#[test]
fn insert_replaces_what_stood_under_the_name() {
    let mut item = Item::new();
    item.insert("id".to_string(), text("u1"));
    item.insert("name".to_string(), text("Alice"));
    item.insert("id".to_string(), text("u2"));
    item.insert("name".to_string(), Attribute::Other);
    assert_eq!(item.get("id"), Some(&text("u2")));
    assert_eq!(item.get("name"), Some(&Attribute::Other));
    assert_eq!(item.entries().len(), 2);
}

#[test]
fn entries_hold_each_name_once() {
    let mut item = Item::new();
    for name in ["b", "a", "c", "a", "b"] {
        item.insert(name.to_string(), text(name));
    }
    let mut names: Vec<&str> = item.entries().iter().map(|entry| entry.name.as_str()).collect();
    names.sort();
    assert_eq!(names, vec!["a", "b", "c"]);
    for Entry { name, value } in item.entries() {
        assert_eq!(item.get(name), Some(value));
    }
}
