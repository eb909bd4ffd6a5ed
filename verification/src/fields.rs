//! The fields of a record, read from a structured entry or from a flat line.

use vstd::prelude::*;

use crate::json::{get, items_view, Json, JsonValue, member, members_view};
use crate::number::{decimal_isize, decimal_u32, decimal_usize, parse_isize, parse_u32, parse_usize};
use crate::status::Failure;
use crate::text::{chars_of, texts_of};

verus! {

/// A text field of a structured entry: empty where the entry has none, and
/// not to be trusted where it holds anything but a string.
pub open spec fn text_field(fields: Seq<(Seq<char>, JsonValue)>, key: Seq<char>) -> Result<
    Seq<char>,
    Failure,
> {
    match member(fields, key) {
        None => Ok(Seq::empty()),
        Some(value) => match value.string() {
            Some(text) => Ok(text),
            None => Err(Failure::TryAgain),
        },
    }
}

/// A user or group id of a structured entry: it has to be there, as a whole
/// number that fits 32 bits.
pub open spec fn id_field(fields: Seq<(Seq<char>, JsonValue)>, key: Seq<char>) -> Result<
    u32,
    Failure,
> {
    match member(fields, key) {
        None => Err(Failure::TryAgain),
        Some(value) => match value.unsigned() {
            Some(n) => if n <= u32::MAX {
                Ok(n as u32)
            } else {
                Err(Failure::TryAgain)
            },
            None => Err(Failure::TryAgain),
        },
    }
}

/// A count of days of a structured entry: -1 where the entry has none, else
/// a whole number that fits `isize`.
pub open spec fn days_field(fields: Seq<(Seq<char>, JsonValue)>, key: Seq<char>) -> Result<
    isize,
    Failure,
> {
    match member(fields, key) {
        None => Ok(-1isize),
        Some(value) => match value.signed() {
            Some(n) => if isize::MIN <= n <= isize::MAX {
                Ok(n as isize)
            } else {
                Err(Failure::TryAgain)
            },
            None => Err(Failure::TryAgain),
        },
    }
}

/// The reserved field of a structured entry: the greatest `usize` where the
/// entry has none, else a whole number of at least zero that fits `usize`.
pub open spec fn reserved_field(fields: Seq<(Seq<char>, JsonValue)>, key: Seq<char>) -> Result<
    usize,
    Failure,
> {
    match member(fields, key) {
        None => Ok(usize::MAX),
        Some(value) => match value.unsigned() {
            Some(n) => if n <= usize::MAX {
                Ok(n as usize)
            } else {
                Err(Failure::TryAgain)
            },
            None => Err(Failure::TryAgain),
        },
    }
}

/// Whether every item is a string.
pub open spec fn all_texts(items: Seq<JsonValue>) -> bool {
    forall|i: int| 0 <= i < items.len() ==> (#[trigger] items[i]) is String
}

/// A list of names of a structured entry: empty where the entry has none,
/// else an array of strings and of nothing else.
pub open spec fn list_field(fields: Seq<(Seq<char>, JsonValue)>, key: Seq<char>) -> Result<
    Seq<Seq<char>>,
    Failure,
> {
    match member(fields, key) {
        None => Ok(Seq::empty()),
        Some(value) => match value.array() {
            Some(items) => if all_texts(items) {
                Ok(Seq::new(items.len(), |i: int| items[i]->String_0))
            } else {
                Err(Failure::TryAgain)
            },
            None => Err(Failure::TryAgain),
        },
    }
}

/// Reads a text field of a structured entry.
pub fn read_text(fields: &Vec<(String, Json)>, key: &str) -> (result: Result<String, Failure>)
    ensures
        match result {
            Ok(text) => text_field(members_view(fields@), key@) == Ok::<Seq<char>, Failure>(text@),
            Err(failure) => text_field(members_view(fields@), key@) == Err::<Seq<char>, Failure>(
                failure,
            ),
        },
{
    match get(fields, key) {
        None => Ok(String::new()),
        Some(value) => match value.as_str() {
            Some(text) => Ok(text.clone()),
            None => Err(Failure::TryAgain),
        },
    }
}

/// Reads a user or group id of a structured entry.
pub fn read_id(fields: &Vec<(String, Json)>, key: &str) -> (result: Result<u32, Failure>)
    ensures
        result == id_field(members_view(fields@), key@),
{
    match get(fields, key) {
        None => Err(Failure::TryAgain),
        Some(value) => match value.as_u64() {
            Some(n) => if n <= 0xffff_ffff {
                Ok(n as u32)
            } else {
                Err(Failure::TryAgain)
            },
            None => Err(Failure::TryAgain),
        },
    }
}

/// Reads a count of days of a structured entry.
pub fn read_days(fields: &Vec<(String, Json)>, key: &str) -> (result: Result<isize, Failure>)
    ensures
        result == days_field(members_view(fields@), key@),
{
    match get(fields, key) {
        None => Ok(-1),
        Some(value) => match value.as_i64() {
            Some(n) => if isize::MIN as i64 <= n && n <= isize::MAX as i64 {
                Ok(n as isize)
            } else {
                Err(Failure::TryAgain)
            },
            None => Err(Failure::TryAgain),
        },
    }
}

/// Reads the reserved field of a structured entry.
pub fn read_reserved(fields: &Vec<(String, Json)>, key: &str) -> (result: Result<usize, Failure>)
    ensures
        result == reserved_field(members_view(fields@), key@),
{
    match get(fields, key) {
        None => Ok(usize::MAX),
        Some(value) => match value.as_u64() {
            Some(n) => if n <= usize::MAX as u64 {
                Ok(n as usize)
            } else {
                Err(Failure::TryAgain)
            },
            None => Err(Failure::TryAgain),
        },
    }
}

/// Reads a list of names of a structured entry.
pub fn read_list(fields: &Vec<(String, Json)>, key: &str) -> (result: Result<Vec<String>, Failure>)
    ensures
        match result {
            Ok(names) => list_field(members_view(fields@), key@) == Ok::<Seq<Seq<char>>, Failure>(
                texts_of(names@),
            ),
            Err(failure) => list_field(members_view(fields@), key@) == Err::<
                Seq<Seq<char>>,
                Failure,
            >(failure),
        },
{
    let mut names: Vec<String> = Vec::new();
    let value = match get(fields, key) {
        None => {
            assert(texts_of(names@) =~= Seq::<Seq<char>>::empty());
            return Ok(names);
        },
        Some(value) => value,
    };
    let items = match value.as_array() {
        Some(items) => items,
        None => {
            return Err(Failure::TryAgain);
        },
    };
    let ghost content = items_view(items@);
    let mut i: usize = 0;
    while i < items.len()
        invariant
            i <= items@.len(),
            content == items_view(items@),
            member(members_view(fields@), key@) == Some(value@),
            value@.array() == Some(content),
            names@.len() == i,
            forall|k: int| 0 <= k < i ==> (#[trigger] content[k]) is String,
            forall|k: int| 0 <= k < i ==> (#[trigger] names@[k])@ == content[k]->String_0,
        decreases items@.len() - i,
    {
        match items[i].as_str() {
            Some(text) => {
                names.push(text.clone());
            },
            None => {
                assert(!(content[i as int] is String));
                return Err(Failure::TryAgain);
            },
        }
        i += 1;
    }
    assert(texts_of(names@) =~= Seq::new(content.len(), |i: int| content[i]->String_0));
    Ok(names)
}

/// The field at position `at` of a flat line, if the line has that many.
pub open spec fn field_at(fields: Seq<Seq<char>>, at: int) -> Option<Seq<char>> {
    if 0 <= at < fields.len() {
        Some(fields[at])
    } else {
        None
    }
}

/// A text field of a flat line: empty where the line ends before it.
pub open spec fn text_at(fields: Seq<Seq<char>>, at: int) -> Seq<char> {
    match field_at(fields, at) {
        Some(text) => text,
        None => Seq::empty(),
    }
}

/// A field of a flat line that has to be there.
pub open spec fn required_at(fields: Seq<Seq<char>>, at: int) -> Result<Seq<char>, Failure> {
    match field_at(fields, at) {
        Some(text) => Ok(text),
        None => Err(Failure::TryAgain),
    }
}

/// A user or group id of a flat line: it has to be there and to write a
/// number that fits 32 bits.
pub open spec fn id_at(fields: Seq<Seq<char>>, at: int) -> Result<u32, Failure> {
    match field_at(fields, at) {
        Some(text) => match decimal_u32(text) {
            Some(id) => Ok(id),
            None => Err(Failure::TryAgain),
        },
        None => Err(Failure::TryAgain),
    }
}

/// A count of days of a flat line: -1 where the line ends before it or the
/// field writes no number that fits `isize`.
pub open spec fn days_at(fields: Seq<Seq<char>>, at: int) -> isize {
    match field_at(fields, at) {
        Some(text) => match decimal_isize(text) {
            Some(days) => days,
            None => -1isize,
        },
        None => -1isize,
    }
}

/// The reserved field of a flat line: the greatest `usize` where the line
/// ends before it or the field writes no number that fits `usize`.
pub open spec fn reserved_at(fields: Seq<Seq<char>>, at: int) -> usize {
    match field_at(fields, at) {
        Some(text) => match decimal_usize(text) {
            Some(reserved) => reserved,
            None => usize::MAX,
        },
        None => usize::MAX,
    }
}

/// Reads a text field of a flat line.
pub fn take_text(fields: &Vec<String>, at: usize) -> (text: String)
    ensures
        text@ == text_at(texts_of(fields@), at as int),
{
    if at < fields.len() {
        fields[at].clone()
    } else {
        String::new()
    }
}

/// Reads a field of a flat line that has to be there.
pub fn take_required(fields: &Vec<String>, at: usize) -> (result: Result<String, Failure>)
    ensures
        match result {
            Ok(text) => required_at(texts_of(fields@), at as int) == Ok::<Seq<char>, Failure>(
                text@,
            ),
            Err(failure) => required_at(texts_of(fields@), at as int) == Err::<
                Seq<char>,
                Failure,
            >(failure),
        },
{
    if at < fields.len() {
        Ok(fields[at].clone())
    } else {
        Err(Failure::TryAgain)
    }
}

/// Reads a user or group id of a flat line.
pub fn take_id(fields: &Vec<String>, at: usize) -> (result: Result<u32, Failure>)
    ensures
        result == id_at(texts_of(fields@), at as int),
{
    if at < fields.len() {
        let chars = chars_of(fields[at].as_str());
        match parse_u32(chars.as_slice()) {
            Some(id) => Ok(id),
            None => Err(Failure::TryAgain),
        }
    } else {
        Err(Failure::TryAgain)
    }
}

/// Reads a count of days of a flat line.
pub fn take_days(fields: &Vec<String>, at: usize) -> (days: isize)
    ensures
        days == days_at(texts_of(fields@), at as int),
{
    if at < fields.len() {
        let chars = chars_of(fields[at].as_str());
        match parse_isize(chars.as_slice()) {
            Some(days) => days,
            None => -1,
        }
    } else {
        -1
    }
}

/// Reads the reserved field of a flat line.
pub fn take_reserved(fields: &Vec<String>, at: usize) -> (reserved: usize)
    ensures
        reserved == reserved_at(texts_of(fields@), at as int),
{
    if at < fields.len() {
        let chars = chars_of(fields[at].as_str());
        match parse_usize(chars.as_slice()) {
            Some(reserved) => reserved,
            None => usize::MAX,
        }
    } else {
        usize::MAX
    }
}

} // verus!
