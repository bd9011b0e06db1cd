//! JSON text: how strings, numbers, arrays and objects are written, and how
//! an object is read.

use crate::item::{Attribute, AttributeView, Item};
use vstd::prelude::*;

verus! {

/// The character that stands for the decimal digit `d`.
pub open spec fn digit(d: nat) -> char
    recommends
        d < 10,
{
    if d == 0 {
        '0'
    } else if d == 1 {
        '1'
    } else if d == 2 {
        '2'
    } else if d == 3 {
        '3'
    } else if d == 4 {
        '4'
    } else if d == 5 {
        '5'
    } else if d == 6 {
        '6'
    } else if d == 7 {
        '7'
    } else if d == 8 {
        '8'
    } else {
        '9'
    }
}

/// A natural number in decimal, without leading zeros.
pub open spec fn number_text(n: nat) -> Seq<char>
    decreases n,
{
    if n < 10 {
        seq![digit(n)]
    } else {
        number_text(n / 10).push(digit(n % 10))
    }
}

fn digit_text(d: usize) -> (text: &'static str)
    requires
        d < 10,
    ensures
        text@ == seq![digit(d as nat)],
{
    proof {
        reveal_strlit("0");
        reveal_strlit("1");
        reveal_strlit("2");
        reveal_strlit("3");
        reveal_strlit("4");
        reveal_strlit("5");
        reveal_strlit("6");
        reveal_strlit("7");
        reveal_strlit("8");
        reveal_strlit("9");
    }
    let text = if d == 0 {
        "0"
    } else if d == 1 {
        "1"
    } else if d == 2 {
        "2"
    } else if d == 3 {
        "3"
    } else if d == 4 {
        "4"
    } else if d == 5 {
        "5"
    } else if d == 6 {
        "6"
    } else if d == 7 {
        "7"
    } else if d == 8 {
        "8"
    } else {
        "9"
    };
    assert(text@ =~= seq![digit(d as nat)]);
    text
}

/// Writes `n` as a JSON number.
pub fn number(n: usize) -> (text: String)
    ensures
        text@ == number_text(n as nat),
    decreases n,
{
    if n < 10 {
        String::from_str(digit_text(n))
    } else {
        let mut text = number(n / 10);
        text.append(digit_text(n % 10));
        text
    }
}

/// How one character stands inside a JSON string: a quotation mark, a
/// reverse solidus and the control characters below U+0020 are escaped, every
/// other character stands for itself.
pub open spec fn escape(c: char) -> Seq<char> {
    if c == '"' {
        seq!['\\', '"']
    } else if c == '\\' {
        seq!['\\', '\\']
    } else if c == '\u{8}' {
        seq!['\\', 'b']
    } else if c == '\u{9}' {
        seq!['\\', 't']
    } else if c == '\u{a}' {
        seq!['\\', 'n']
    } else if c == '\u{c}' {
        seq!['\\', 'f']
    } else if c == '\u{d}' {
        seq!['\\', 'r']
    } else if (c as u32) < 0x20 {
        seq!['\\', 'u', '0', '0', hex_digit((c as u32 / 16) as nat), hex_digit((c as u32 % 16) as nat)]
    } else {
        seq![c]
    }
}

/// The character that stands for the hexadecimal digit `d`, in lower case.
pub open spec fn hex_digit(d: nat) -> char
    recommends
        d < 16,
{
    if d < 10 {
        digit(d)
    } else if d == 10 {
        'a'
    } else if d == 11 {
        'b'
    } else if d == 12 {
        'c'
    } else if d == 13 {
        'd'
    } else if d == 14 {
        'e'
    } else {
        'f'
    }
}

/// A text as a JSON string: its characters escaped, between quotation marks.
pub open spec fn string_text(text: Seq<char>) -> Seq<char> {
    seq!['"'] + text.map_values(|c: char| escape(c)).flatten() + seq!['"']
}

/// The parts in their order, with a comma between each two.
pub open spec fn joined(parts: Seq<Seq<char>>) -> Seq<char>
    decreases parts.len(),
{
    if parts.len() == 0 {
        seq![]
    } else if parts.len() == 1 {
        parts[0]
    } else {
        joined(parts.drop_last()) + seq![','] + parts.last()
    }
}

/// A JSON array of values that are written already.
pub open spec fn array_text(values: Seq<Seq<char>>) -> Seq<char> {
    seq!['['] + joined(values) + seq![']']
}

/// One member of a JSON object: its key as a string, a colon, its value.
pub open spec fn member_text(member: (Seq<char>, Seq<char>)) -> Seq<char> {
    string_text(member.0) + seq![':'] + member.1
}

/// A JSON object of members whose values are written already.
pub open spec fn object_text(members: Seq<(Seq<char>, Seq<char>)>) -> Seq<char> {
    seq!['{'] + joined(members.map_values(|member: (Seq<char>, Seq<char>)| member_text(member)))
        + seq!['}']
}

/// A key of an object with its value, the value as JSON text.
#[derive(Debug)]
pub struct Member {
    pub key: String,
    pub value: String,
}

impl View for Member {
    type V = (Seq<char>, Seq<char>);

    open spec fn view(&self) -> (Seq<char>, Seq<char>) {
        (self.key@, self.value@)
    }
}

impl DeepView for Member {
    type V = (Seq<char>, Seq<char>);

    open spec fn deep_view(&self) -> (Seq<char>, Seq<char>) {
        self@
    }
}

/// Writes `text` as a JSON string.
///
/// The writing is done by `serde_json`, through `Value::from` and the
/// `to_string` of the value. Taken on trust: the result is the text between
/// quotation marks, with `\"`, `\\`, `\b`, `\t`, `\n`, `\f`, `\r` and
/// `\u00..` (two lower-case hexadecimal digits) in place of the characters
/// that JSON wants escaped, and every other character unchanged.
#[verifier::external_body]
pub(crate) fn string(text: &str) -> (written: String)
    ensures
        written@ == string_text(text@),
{
    serde_json::Value::from(text).to_string()
}

proof fn lemma_joined_push(parts: Seq<Seq<char>>, part: Seq<char>)
    ensures
        joined(parts.push(part)) == if parts.len() == 0 {
            part
        } else {
            joined(parts) + seq![','] + part
        },
{
    assert(parts.push(part).drop_last() =~= parts);
}

/// Appends the parts to `text`, with a comma between each two.
fn append_joined(text: &mut String, parts: &Vec<String>)
    ensures
        final(text)@ == old(text)@ + joined(parts.deep_view()),
{
    let ghost all = parts.deep_view();
    let mut i: usize = 0;
    while i < parts.len()
        invariant
            i <= parts@.len(),
            all == parts.deep_view(),
            text@ == old(text)@ + joined(all.take(i as int)),
        decreases parts@.len() - i,
    {
        proof {
            reveal_strlit(",");
            lemma_joined_push(all.take(i as int), all[i as int]);
            assert(all.take(i as int).push(all[i as int]) =~= all.take(i + 1));
            assert(all[i as int] == parts@[i as int]@);
        }
        if i > 0 {
            text.append(",");
        }
        text.append(parts[i].as_str());
        i += 1;
    }
    assert(all.take(i as int) =~= all);
}

/// Writes a JSON array of values that are written already.
pub fn array(values: &Vec<String>) -> (written: String)
    ensures
        written@ == array_text(values.deep_view()),
{
    proof {
        reveal_strlit("[");
        reveal_strlit("]");
    }
    let mut written = String::from_str("[");
    append_joined(&mut written, values);
    written.append("]");
    written
}

/// Writes a JSON object of members whose values are written already.
pub fn object(members: &Vec<Member>) -> (written: String)
    ensures
        written@ == object_text(members.deep_view()),
{
    let ghost all = members.deep_view();
    let mut parts: Vec<String> = Vec::new();
    let mut i: usize = 0;
    while i < members.len()
        invariant
            i <= members@.len(),
            all == members.deep_view(),
            parts.deep_view() == all.take(i as int).map_values(
                |member: (Seq<char>, Seq<char>)| member_text(member),
            ),
        decreases members@.len() - i,
    {
        proof {
            reveal_strlit(":");
        }
        let mut part = string(members[i].key.as_str());
        part.append(":");
        part.append(members[i].value.as_str());
        let ghost before = parts.deep_view();
        parts.push(part);
        proof {
            assert(all[i as int] == members@[i as int]@);
            assert(part@ == member_text(all[i as int]));
            assert(parts.deep_view() =~= before.push(part@));
            assert(parts.deep_view() =~= all.take(i + 1).map_values(
                |member: (Seq<char>, Seq<char>)| member_text(member),
            ));
        }
        i += 1;
    }
    proof {
        reveal_strlit("{");
        reveal_strlit("}");
        assert(all.take(i as int) =~= all);
    }
    let mut written = String::from_str("{");
    append_joined(&mut written, &parts);
    written.append("}");
    written
}

/// What `serde_json` makes of `text` when it reads it as one JSON object.
///
/// `Ok` holds the members of the object, each key once, with the text of
/// the member where its value is a JSON string and `None` where it is of
/// another kind. `Err` holds the message of the error with which `serde_json`
/// refuses a text that is not one JSON object.
pub uninterp spec fn object_members(text: Seq<char>) -> Result<
    Seq<(Seq<char>, Option<Seq<char>>)>,
    Seq<char>,
>;

/// The members that `read_object` hands out, as plain values.
pub open spec fn read_view(read: Result<Vec<(String, Option<String>)>, String>) -> Result<
    Seq<(Seq<char>, Option<Seq<char>>)>,
    Seq<char>,
> {
    match read {
        Ok(members) => Ok(members.deep_view()),
        Err(message) => Err(message@),
    }
}

/// Reads `text` as one JSON object.
///
/// The reading is done by `serde_json::from_str`, into a `serde_json::Map`.
/// Taken on trust: the same text always reads the same, which gives
/// `object_members` its meaning. The members come out as the map walks them;
/// a value that is a `Value::String` hands its text out, any other value
/// comes out as `None`; an error comes out as the text it displays.
#[verifier::external_body]
pub(crate) fn read_object(text: &str) -> (read: Result<Vec<(String, Option<String>)>, String>)
    ensures
        read_view(read) == object_members(text@),
{
    match serde_json::from_str::<serde_json::Map<String, serde_json::Value>>(text) {
        Ok(map) => Ok(map.into_iter().map(|(key, value)| match value {
            serde_json::Value::String(text) => (key, Some(text)),
            _ => (key, None),
        }).collect()),
        Err(error) => Err(error.to_string()),
    }
}

/// The attribute that stands for a member of an object.
pub open spec fn member_attribute(text: Option<Seq<char>>) -> AttributeView {
    match text {
        Some(text) => AttributeView::Text(text),
        None => AttributeView::Other,
    }
}

/// The item that holds the members of an object as its attributes.
pub open spec fn members_item(members: Seq<(Seq<char>, Option<Seq<char>>)>) -> Map<
    Seq<char>,
    AttributeView,
>
    decreases members.len(),
{
    if members.len() == 0 {
        Map::empty()
    } else {
        members_item(members.drop_last()).insert(
            members.last().0,
            member_attribute(members.last().1),
        )
    }
}

/// Gathers the members of an object into an item.
pub fn item_of_members(members: &Vec<(String, Option<String>)>) -> (item: Item)
    ensures
        item@ == members_item(members.deep_view()),
{
    let ghost all = members.deep_view();
    let mut item = Item::new();
    let mut i: usize = 0;
    while i < members.len()
        invariant
            i <= members@.len(),
            all == members.deep_view(),
            item@ == members_item(all.take(i as int)),
        decreases members@.len() - i,
    {
        let name = members[i].0.clone();
        let value = match &members[i].1 {
            Some(text) => Attribute::Text(text.clone()),
            None => Attribute::Other,
        };
        proof {
            assert(all.take(i + 1).drop_last() =~= all.take(i as int));
            assert(all[i as int] == members@[i as int].deep_view());
        }
        item.insert(name, value);
        i += 1;
    }
    assert(all.take(i as int) =~= all);
    item
}

/// Reads `text` as one JSON object and hands out its members as an item.
pub fn parse_object(text: &str) -> (parsed: Result<Item, String>)
    ensures
        match parsed {
            Ok(item) => object_members(text@) matches Ok(members) && item@ == members_item(members),
            Err(message) => object_members(text@) == Err::<Seq<(Seq<char>, Option<Seq<char>>)>, Seq<char>>(
                message@,
            ),
        },
{
    match read_object(text) {
        Ok(members) => Ok(item_of_members(&members)),
        Err(message) => Err(message),
    }
}

} // verus!
