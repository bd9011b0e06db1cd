//! The user record and how it is read from, and written as, an item.

use crate::item::{Attribute, AttributeView, Item};
use crate::json;
use crate::json::Member;
use vstd::prelude::*;

verus! {

/// A user: the one entity of the service. All three fields are required.
#[derive(Debug, PartialEq, Eq)]
pub struct Record {
    pub id: String,
    pub name: String,
    pub email: String,
}

pub struct RecordView {
    pub id: Seq<char>,
    pub name: Seq<char>,
    pub email: Seq<char>,
}

impl View for Record {
    type V = RecordView;

    open spec fn view(&self) -> RecordView {
        RecordView { id: self.id@, name: self.name@, email: self.email@ }
    }
}

impl DeepView for Record {
    type V = RecordView;

    open spec fn deep_view(&self) -> RecordView {
        self@
    }
}

/// The fields of a record.
#[derive(Debug, Clone, Copy, PartialEq, Eq, Structural)]
pub enum Field {
    Id,
    Name,
    Email,
}

impl Field {
    /// The name under which the field stands in an item and in JSON.
    pub open spec fn label(self) -> Seq<char> {
        match self {
            Field::Id => "id"@,
            Field::Name => "name"@,
            Field::Email => "email"@,
        }
    }

    /// The name under which the field stands in an item and in JSON.
    pub fn name(self) -> (name: &'static str)
        ensures
            name@ == self.label(),
    {
        match self {
            Field::Id => "id",
            Field::Name => "name",
            Field::Email => "email",
        }
    }
}

/// Why an item is no record.
#[derive(Debug, Clone, Copy, PartialEq, Eq, Structural)]
pub enum FieldError {
    /// The item has no attribute of the field's name.
    Missing(Field),
    /// The attribute of the field's name is not a text.
    NotText(Field),
}

impl FieldError {
    pub open spec fn message_text(self) -> Seq<char> {
        match self {
            FieldError::Missing(field) => "missing field `"@ + field.label() + "`"@,
            FieldError::NotText(field) => "invalid type for field `"@ + field.label()
                + "`, expected a string"@,
        }
    }

    /// The error in words.
    pub fn message(self) -> (message: String)
        ensures
            message@ == self.message_text(),
    {
        match self {
            FieldError::Missing(field) => {
                let mut message = String::from_str("missing field `");
                message.append(field.name());
                message.append("`");
                message
            },
            FieldError::NotText(field) => {
                let mut message = String::from_str("invalid type for field `");
                message.append(field.name());
                message.append("`, expected a string");
                message
            },
        }
    }
}

/// The text that an item holds for a field.
pub open spec fn field_of(item: Map<Seq<char>, AttributeView>, field: Field) -> Result<
    Seq<char>,
    FieldError,
> {
    if !item.contains_key(field.label()) {
        Err(FieldError::Missing(field))
    } else {
        match item[field.label()] {
            AttributeView::Text(text) => Ok(text),
            AttributeView::Other => Err(FieldError::NotText(field)),
        }
    }
}

/// The record that an item holds: the texts of its three fields. Where a
/// field is missing or no text, the first such field, in the order `id`,
/// `name`, `email`, gives the error.
pub open spec fn record_of(item: Map<Seq<char>, AttributeView>) -> Result<RecordView, FieldError> {
    match field_of(item, Field::Id) {
        Err(error) => Err(error),
        Ok(id) => match field_of(item, Field::Name) {
            Err(error) => Err(error),
            Ok(name) => match field_of(item, Field::Email) {
                Err(error) => Err(error),
                Ok(email) => Ok(RecordView { id, name, email }),
            },
        },
    }
}

/// The item that holds a record: its three fields as texts, nothing else.
pub open spec fn item_of(record: RecordView) -> Map<Seq<char>, AttributeView> {
    Map::<Seq<char>, AttributeView>::empty().insert(
        Field::Id.label(),
        AttributeView::Text(record.id),
    ).insert(Field::Name.label(), AttributeView::Text(record.name)).insert(
        Field::Email.label(),
        AttributeView::Text(record.email),
    )
}

/// A record as a JSON object.
pub open spec fn record_text(record: RecordView) -> Seq<char> {
    json::object_text(
        seq![
            (Field::Id.label(), json::string_text(record.id)),
            (Field::Name.label(), json::string_text(record.name)),
            (Field::Email.label(), json::string_text(record.email)),
        ],
    )
}

fn read_field(item: &Item, field: Field) -> (read: Result<String, FieldError>)
    ensures
        match read {
            Ok(text) => field_of(item@, field) == Ok::<Seq<char>, FieldError>(text@),
            Err(error) => field_of(item@, field) == Err::<Seq<char>, FieldError>(error),
        },
{
    match item.get(field.name()) {
        None => Err(FieldError::Missing(field)),
        Some(Attribute::Other) => Err(FieldError::NotText(field)),
        Some(Attribute::Text(text)) => Ok(text.clone()),
    }
}

impl Record {
    /// Reads a record from an item.
    pub fn from_item(item: &Item) -> (read: Result<Record, FieldError>)
        ensures
            match read {
                Ok(record) => record_of(item@) == Ok::<RecordView, FieldError>(record@),
                Err(error) => record_of(item@) == Err::<RecordView, FieldError>(error),
            },
    {
        let id = match read_field(item, Field::Id) {
            Ok(text) => text,
            Err(error) => {
                return Err(error);
            },
        };
        let name = match read_field(item, Field::Name) {
            Ok(text) => text,
            Err(error) => {
                return Err(error);
            },
        };
        let email = match read_field(item, Field::Email) {
            Ok(text) => text,
            Err(error) => {
                return Err(error);
            },
        };
        Ok(Record { id, name, email })
    }

    /// The item under which the record is stored.
    pub fn to_item(&self) -> (item: Item)
        ensures
            item@ == item_of(self@),
    {
        let mut item = Item::new();
        item.insert(String::from_str(Field::Id.name()), Attribute::Text(self.id.clone()));
        item.insert(String::from_str(Field::Name.name()), Attribute::Text(self.name.clone()));
        item.insert(String::from_str(Field::Email.name()), Attribute::Text(self.email.clone()));
        item
    }

    /// Writes the record as a JSON object.
    pub fn to_json(&self) -> (written: String)
        ensures
            written@ == record_text(self@),
    {
        let mut members: Vec<Member> = Vec::new();
        members.push(
            Member {
                key: String::from_str(Field::Id.name()),
                value: json::string(self.id.as_str()),
            },
        );
        members.push(
            Member {
                key: String::from_str(Field::Name.name()),
                value: json::string(self.name.as_str()),
            },
        );
        members.push(
            Member {
                key: String::from_str(Field::Email.name()),
                value: json::string(self.email.as_str()),
            },
        );
        assert(members.deep_view() =~= seq![
            (Field::Id.label(), json::string_text(self@.id)),
            (Field::Name.label(), json::string_text(self@.name)),
            (Field::Email.label(), json::string_text(self@.email)),
        ]);
        json::object(&members)
    }
}

/// The three field names differ from each other.
pub proof fn lemma_labels_differ()
    ensures
        Field::Id.label() != Field::Name.label(),
        Field::Id.label() != Field::Email.label(),
        Field::Name.label() != Field::Email.label(),
{
    reveal_strlit("id");
    reveal_strlit("name");
    reveal_strlit("email");
    assert("id"@.len() == 2);
    assert("name"@.len() == 4);
    assert("email"@.len() == 5);
}

/// What is stored for a record reads back as that record.
pub proof fn lemma_item_reads_back(record: RecordView)
    ensures
        record_of(item_of(record)) == Ok::<RecordView, FieldError>(record),
{
    lemma_labels_differ();
}

} // verus!
