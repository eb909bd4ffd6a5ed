//! JSON documents: the configuration, and the structured answers of commands.

use vstd::prelude::*;

use crate::text::same_text;

verus! {

/// The content of a JSON document.
///
/// A number is kept as the two integers it can be read as: the first is there
/// where it is a whole number of at least zero that fits `u64`, the second
/// where it is a whole number that fits `i64`. A number with a fraction or an
/// exponent has neither. An object keeps its members in the order in which
/// the document's reader walks them.
pub enum JsonValue {
    Null,
    Bool(bool),
    Number(Option<u64>, Option<i64>),
    String(Seq<char>),
    Array(Seq<JsonValue>),
    Object(Seq<(Seq<char>, JsonValue)>),
}

/// A JSON document in memory; its view is its content.
#[derive(Debug, PartialEq, Eq)]
pub enum Json {
    Null,
    Bool(bool),
    Number(Option<u64>, Option<i64>),
    String(String),
    Array(Vec<Json>),
    Object(Vec<(String, Json)>),
}

/// The content of a document in memory.
pub open spec fn content_of(json: Json) -> JsonValue
    decreases json,
{
    match json {
        Json::Null => JsonValue::Null,
        Json::Bool(b) => JsonValue::Bool(b),
        Json::Number(unsigned, signed) => JsonValue::Number(unsigned, signed),
        Json::String(text) => JsonValue::String(text@),
        Json::Array(items) => JsonValue::Array(
            Seq::new(
                items@.len(),
                |i: int|
                    if 0 <= i < items@.len() {
                        content_of(items@[i])
                    } else {
                        JsonValue::Null
                    },
            ),
        ),
        Json::Object(members) => JsonValue::Object(
            Seq::new(
                members@.len(),
                |i: int|
                    if 0 <= i < members@.len() {
                        (members@[i].0@, content_of(members@[i].1))
                    } else {
                        (Seq::empty(), JsonValue::Null)
                    },
            ),
        ),
    }
}

impl View for Json {
    type V = JsonValue;

    open spec fn view(&self) -> JsonValue {
        content_of(*self)
    }
}

/// The content of the items of an array.
pub open spec fn items_view(items: Seq<Json>) -> Seq<JsonValue> {
    Seq::new(items.len(), |i: int| items[i]@)
}

/// The content of the members of an object.
pub open spec fn members_view(members: Seq<(String, Json)>) -> Seq<(Seq<char>, JsonValue)> {
    Seq::new(members.len(), |i: int| (members[i].0@, members[i].1@))
}

/// The first position at or after `from` whose member is named `key`, or the
/// number of members where there is none.
pub open spec fn find_member(members: Seq<(Seq<char>, JsonValue)>, key: Seq<char>, from: int) -> int
    decreases members.len() - from,
{
    if 0 <= from < members.len() && members[from].0 != key {
        find_member(members, key, from + 1)
    } else {
        from
    }
}

/// The value of the first member named `key`.
pub open spec fn member(members: Seq<(Seq<char>, JsonValue)>, key: Seq<char>) -> Option<JsonValue> {
    let at = find_member(members, key, 0);
    if 0 <= at < members.len() {
        Some(members[at].1)
    } else {
        None
    }
}

impl JsonValue {
    /// The members, where this is an object.
    pub open spec fn object(self) -> Option<Seq<(Seq<char>, JsonValue)>> {
        match self {
            JsonValue::Object(members) => Some(members),
            _ => None,
        }
    }

    /// The items, where this is an array.
    pub open spec fn array(self) -> Option<Seq<JsonValue>> {
        match self {
            JsonValue::Array(items) => Some(items),
            _ => None,
        }
    }

    /// The text, where this is a string.
    pub open spec fn string(self) -> Option<Seq<char>> {
        match self {
            JsonValue::String(text) => Some(text),
            _ => None,
        }
    }

    /// The truth value, where this is one.
    pub open spec fn boolean(self) -> Option<bool> {
        match self {
            JsonValue::Bool(b) => Some(b),
            _ => None,
        }
    }

    /// The number as a `u64`, where this is a number that can be read so.
    pub open spec fn unsigned(self) -> Option<u64> {
        match self {
            JsonValue::Number(unsigned, _) => unsigned,
            _ => None,
        }
    }

    /// The number as an `i64`, where this is a number that can be read so.
    pub open spec fn signed(self) -> Option<i64> {
        match self {
            JsonValue::Number(_, signed) => signed,
            _ => None,
        }
    }
}

impl Json {
    /// The content of an object is that of its members.
    pub proof fn object_view(members: Vec<(String, Json)>)
        ensures
            Json::Object(members)@ == JsonValue::Object(members_view(members@)),
    {
        assert(Json::Object(members)@->Object_0 =~= members_view(members@));
    }

    /// The content of an array is that of its items.
    pub proof fn array_view(items: Vec<Json>)
        ensures
            Json::Array(items)@ == JsonValue::Array(items_view(items@)),
    {
        assert(Json::Array(items)@->Array_0 =~= items_view(items@));
    }

    /// A whole number of at least zero.
    pub fn from_u64(n: u64) -> (json: Json)
        ensures
            json@ == JsonValue::Number(
                Some(n),
                if n <= i64::MAX {
                    Some(n as i64)
                } else {
                    None
                },
            ),
    {
        if n <= 0x7fff_ffff_ffff_ffff {
            Json::Number(Some(n), Some(n as i64))
        } else {
            Json::Number(Some(n), None)
        }
    }

    /// A whole number.
    pub fn from_i64(n: i64) -> (json: Json)
        ensures
            json@ == JsonValue::Number(
                if n >= 0 {
                    Some(n as u64)
                } else {
                    None
                },
                Some(n),
            ),
    {
        if n >= 0 {
            Json::Number(Some(n as u64), Some(n))
        } else {
            Json::Number(None, Some(n))
        }
    }

    /// The members, where this is an object.
    pub fn as_object(&self) -> (members: Option<&Vec<(String, Json)>>)
        ensures
            match members {
                Some(list) => self@.object() == Some(members_view(list@)),
                None => self@.object() is None,
            },
    {
        match self {
            Json::Object(list) => {
                proof {
                    Json::object_view(*list);
                }
                Some(list)
            },
            _ => None,
        }
    }

    /// The items, where this is an array.
    pub fn as_array(&self) -> (items: Option<&Vec<Json>>)
        ensures
            match items {
                Some(list) => self@.array() == Some(items_view(list@)),
                None => self@.array() is None,
            },
    {
        match self {
            Json::Array(list) => {
                proof {
                    Json::array_view(*list);
                }
                Some(list)
            },
            _ => None,
        }
    }

    /// The text, where this is a string.
    pub fn as_str(&self) -> (text: Option<&String>)
        ensures
            match text {
                Some(s) => self@.string() == Some(s@),
                None => self@.string() is None,
            },
    {
        match self {
            Json::String(s) => Some(s),
            _ => None,
        }
    }

    /// The truth value, where this is one.
    pub fn as_bool(&self) -> (b: Option<bool>)
        ensures
            b == self@.boolean(),
    {
        match self {
            Json::Bool(b) => Some(*b),
            _ => None,
        }
    }

    /// The number as a `u64`, where this is a number that can be read so.
    pub fn as_u64(&self) -> (n: Option<u64>)
        ensures
            n == self@.unsigned(),
    {
        match self {
            Json::Number(unsigned, _) => *unsigned,
            _ => None,
        }
    }

    /// The number as an `i64`, where this is a number that can be read so.
    pub fn as_i64(&self) -> (n: Option<i64>)
        ensures
            n == self@.signed(),
    {
        match self {
            Json::Number(_, signed) => *signed,
            _ => None,
        }
    }
}

/// The value of the first member named `key`.
pub fn get<'a>(members: &'a Vec<(String, Json)>, key: &str) -> (value: Option<&'a Json>)
    ensures
        match value {
            Some(json) => member(members_view(members@), key@) == Some(json@),
            None => member(members_view(members@), key@) is None,
        },
{
    let mut at: usize = 0;
    while at < members.len()
        invariant
            at <= members@.len(),
            find_member(members_view(members@), key@, 0) == find_member(
                members_view(members@),
                key@,
                at as int,
            ),
        decreases members@.len() - at,
    {
        if same_text(members[at].0.as_str(), key) {
            return Some(&members[at].1);
        }
        at += 1;
    }
    None
}

/// `serde_json::Value`, as the reader hands it over; it is moved into a
/// [`Json`] at once and never looked into here.
#[verifier::external_type_specification]
#[verifier::external_body]
pub struct ExValue(serde_json::Value);

/// What `serde_json::from_str` makes of a text that it reads as a
/// `serde_json::Value`: the value's content, or `None` where it reports an
/// error.
pub uninterp spec fn json_document(text: Seq<char>) -> Option<JsonValue>;

/// Whether `serde_json::from_str` accepts a text that it reads as a
/// `serde::de::IgnoredAny`, that is without building a value.
pub uninterp spec fn json_well_formed(text: Seq<char>) -> bool;

/// Moves a `serde_json::Value` into a `Json`, variant by variant. A number
/// brings what `Number::as_u64` and `Number::as_i64` give for it, an object
/// its members in the order of `Map::into_iter`.
#[verifier::external_body]
fn lift_value(value: serde_json::Value) -> Json {
    match value {
        serde_json::Value::Null => Json::Null,
        serde_json::Value::Bool(b) => Json::Bool(b),
        serde_json::Value::Number(n) => Json::Number(n.as_u64(), n.as_i64()),
        serde_json::Value::String(s) => Json::String(s),
        serde_json::Value::Array(a) => Json::Array(a.into_iter().map(lift_value).collect()),
        serde_json::Value::Object(m) => Json::Object(
            m.into_iter().map(|(k, v)| (k, lift_value(v))).collect(),
        ),
    }
}

/// `serde_json::from_str::<serde_json::Value>`: the document that `text`
/// writes, which depends on `text` alone.
#[verifier::external_body]
fn read_document(text: &str) -> (document: Option<Json>)
    ensures
        match document {
            Some(json) => json_document(text@) == Some(json@),
            None => json_document(text@) is None,
        },
{
    serde_json::from_str::<serde_json::Value>(text).ok().map(lift_value)
}

/// `serde_json::from_str::<serde::de::IgnoredAny>`: whether `text` is
/// accepted as JSON, which depends on `text` alone.
#[verifier::external_body]
fn probe_document(text: &str) -> (accepted: bool)
    ensures
        accepted == json_well_formed(text@),
{
    serde_json::from_str::<serde::de::IgnoredAny>(text).is_ok()
}

/// The content of a [`Reading`].
pub enum ReadingView {
    NotJson,
    Unreadable,
    Document(JsonValue),
}

/// What reading a text as JSON gave.
#[derive(Debug, PartialEq, Eq)]
pub enum Reading {
    /// The text is not well-formed JSON.
    NotJson,
    /// The text is well-formed, and still no document could be made of it.
    Unreadable,
    /// The document that the text writes.
    Document(Json),
}

impl View for Reading {
    type V = ReadingView;

    open spec fn view(&self) -> ReadingView {
        match self {
            Reading::NotJson => ReadingView::NotJson,
            Reading::Unreadable => ReadingView::Unreadable,
            Reading::Document(json) => ReadingView::Document(json@),
        }
    }
}

/// What reading gives for a text, from whether the text is well-formed and
/// from the document made of it, if any. A document is not asked for where
/// the text is not well-formed.
pub open spec fn reading_of(well_formed: bool, document: Option<JsonValue>) -> ReadingView {
    if !well_formed {
        ReadingView::NotJson
    } else {
        match document {
            Some(value) => ReadingView::Document(value),
            None => ReadingView::Unreadable,
        }
    }
}

/// What reading `text` as JSON gives.
pub open spec fn read_as_json(text: Seq<char>) -> ReadingView {
    reading_of(json_well_formed(text), json_document(text))
}

/// Reads `text` as JSON: first whether it is well-formed, which is cheap,
/// and only then the document.
pub fn read(text: &str) -> (reading: Reading)
    ensures
        reading@ == read_as_json(text@),
{
    if !probe_document(text) {
        return Reading::NotJson;
    }
    match read_document(text) {
        Some(json) => Reading::Document(json),
        None => Reading::Unreadable,
    }
}

} // verus!
