//! Shadow records and the two lookups for them.

use vstd::prelude::*;
use vstd::slice::slice_subrange;

use crate::fields::{
    days_at, days_field, read_days, read_reserved, read_text, required_at, reserved_at,
    reserved_field, take_days, take_required, take_reserved, take_text, text_at, text_field,
};
use crate::json::{Json, JsonValue};
use crate::output::output_view;
use crate::record::{
    all_records, every_record, named_record, read_all, read_named, Record, record_named, reports,
    reports_all,
};
use crate::response::{answer, answered, Response};
use crate::status::{Failure, Outcome};
use crate::text::{
    chars_of, count, fields_count, fields_of, occurrences, split_fields, texts_of, trim_bounds,
    trimmed, trimming_keeps_the_count,
};

verus! {

/// The content of a [`ShadowRecord`].
pub struct ShadowView {
    pub name: Seq<char>,
    pub passwd: Seq<char>,
    pub last_change: isize,
    pub min_days: isize,
    pub max_days: isize,
    pub warn_days: isize,
    pub inactive_days: isize,
    pub expire_date: isize,
    pub reserved: usize,
}

/// A user's credentials: name, password field, the six numbers about the
/// password's age, each -1 where it is not set, and the reserved field, the
/// greatest `usize` where it is not set.
#[derive(Clone, Debug, PartialEq, Eq)]
pub struct ShadowRecord {
    pub name: String,
    pub passwd: String,
    pub last_change: isize,
    pub min_days: isize,
    pub max_days: isize,
    pub warn_days: isize,
    pub inactive_days: isize,
    pub expire_date: isize,
    pub reserved: usize,
}

impl View for ShadowRecord {
    type V = ShadowView;

    open spec fn view(&self) -> ShadowView {
        ShadowView {
            name: self.name@,
            passwd: self.passwd@,
            last_change: self.last_change,
            min_days: self.min_days,
            max_days: self.max_days,
            warn_days: self.warn_days,
            inactive_days: self.inactive_days,
            expire_date: self.expire_date,
            reserved: self.reserved,
        }
    }
}

/// The fewest colons that a line of credentials has: the field after the
/// eighth may be left out with its colon.
pub const SHADOW_SEPARATORS: usize = 7;

/// The most fields that a line of credentials is split into.
pub const SHADOW_FIELDS: usize = 9;

/// The credentials that a structured entry describes. The entry's key is the
/// user's name; its value is an object that may have `passwd`,
/// `last_change`, `change_min_days`, `change_max_days`, `change_warn_days`,
/// `change_inactive_days`, `expire_date` and `reserved`.
pub open spec fn shadow_of_entry(name: Seq<char>, value: JsonValue) -> Result<ShadowView, Failure> {
    match value.object() {
        None => Err(Failure::TryAgain),
        Some(fields) => match (
            text_field(fields, "passwd"@),
            days_field(fields, "last_change"@),
            days_field(fields, "change_min_days"@),
            days_field(fields, "change_max_days"@),
        ) {
            (Ok(passwd), Ok(last_change), Ok(min_days), Ok(max_days)) => match (
                days_field(fields, "change_warn_days"@),
                days_field(fields, "change_inactive_days"@),
                days_field(fields, "expire_date"@),
                reserved_field(fields, "reserved"@),
            ) {
                (Ok(warn_days), Ok(inactive_days), Ok(expire_date), Ok(reserved)) => Ok(
                    ShadowView {
                        name,
                        passwd,
                        last_change,
                        min_days,
                        max_days,
                        warn_days,
                        inactive_days,
                        expire_date,
                        reserved,
                    },
                ),
                _ => Err(Failure::TryAgain),
            },
            _ => Err(Failure::TryAgain),
        },
    }
}

/// The credentials that the fields of a line describe, in the order of the
/// record's fields. Only the name has to be there; a number that is left out
/// or cannot be read is not set.
pub open spec fn shadow_of_fields(fields: Seq<Seq<char>>) -> Result<ShadowView, Failure> {
    match required_at(fields, 0) {
        Ok(name) => Ok(
            ShadowView {
                name,
                passwd: text_at(fields, 1),
                last_change: days_at(fields, 2),
                min_days: days_at(fields, 3),
                max_days: days_at(fields, 4),
                warn_days: days_at(fields, 5),
                inactive_days: days_at(fields, 6),
                expire_date: days_at(fields, 7),
                reserved: reserved_at(fields, 8),
            },
        ),
        Err(failure) => Err(failure),
    }
}

/// The credentials that a flat line describes. The line needs seven colons.
pub open spec fn shadow_of_line(line: Seq<char>) -> Result<ShadowView, Failure> {
    if occurrences(line, ':') < SHADOW_SEPARATORS {
        Err(Failure::TryAgain)
    } else {
        shadow_of_fields(fields_of(trimmed(line), ':', SHADOW_FIELDS as nat))
    }
}

/// A line is read as credentials exactly when it has seven colons: the name
/// and seven more fields are then there, and a number that cannot be read
/// is taken as not set. A line with fewer colons gives the advice to try
/// again.
pub proof fn shadow_line_is_read(line: Seq<char>)
    ensures
        shadow_of_line(line) is Ok <==> occurrences(line, ':') >= 7,
        occurrences(line, ':') >= 7 ==> fields_of(trimmed(line), ':', 9).len() >= 8,
        shadow_of_line(line) matches Err(failure) ==> failure == Failure::TryAgain,
{
    if occurrences(line, ':') >= 7 {
        trimming_keeps_the_count(line, ':');
        fields_count(trimmed(line), ':', 0, 9);
    }
}

/// A structured entry is read as credentials only with the name of its key,
/// and never with anything but the advice to try again where it is not
/// read.
pub proof fn shadow_entry_is_read(name: Seq<char>, value: JsonValue)
    ensures
        shadow_of_entry(name, value) matches Ok(record) ==> record.name == name,
        shadow_of_entry(name, value) matches Err(failure) ==> failure == Failure::TryAgain,
{
}

impl ShadowRecord {
    /// Reads the credentials that the fields of a line describe.
    pub fn from_fields(fields: &Vec<String>) -> (result: Result<ShadowRecord, Failure>)
        ensures
            match result {
                Ok(record) => shadow_of_fields(texts_of(fields@)) == Ok::<ShadowView, Failure>(
                    record@,
                ),
                Err(failure) => shadow_of_fields(texts_of(fields@)) == Err::<ShadowView, Failure>(
                    failure,
                ),
            },
    {
        let name = match take_required(fields, 0) {
            Ok(name) => name,
            Err(failure) => {
                return Err(failure);
            },
        };
        Ok(
            ShadowRecord {
                name,
                passwd: take_text(fields, 1),
                last_change: take_days(fields, 2),
                min_days: take_days(fields, 3),
                max_days: take_days(fields, 4),
                warn_days: take_days(fields, 5),
                inactive_days: take_days(fields, 6),
                expire_date: take_days(fields, 7),
                reserved: take_reserved(fields, 8),
            },
        )
    }
}

impl Record for ShadowRecord {
    open spec fn of_entry(name: Seq<char>, value: JsonValue) -> Result<ShadowView, Failure> {
        shadow_of_entry(name, value)
    }

    open spec fn of_line(line: Seq<char>) -> Result<ShadowView, Failure> {
        shadow_of_line(line)
    }

    open spec fn name_of(record: ShadowView) -> Seq<char> {
        record.name
    }

    fn from_entry(name: &String, value: &Json) -> (result: Result<ShadowRecord, Failure>) {
        let fields = match value.as_object() {
            Some(fields) => fields,
            None => {
                return Err(Failure::TryAgain);
            },
        };
        let passwd = match read_text(fields, "passwd") {
            Ok(passwd) => passwd,
            Err(_) => {
                return Err(Failure::TryAgain);
            },
        };
        let last_change = match read_days(fields, "last_change") {
            Ok(days) => days,
            Err(_) => {
                return Err(Failure::TryAgain);
            },
        };
        let min_days = match read_days(fields, "change_min_days") {
            Ok(days) => days,
            Err(_) => {
                return Err(Failure::TryAgain);
            },
        };
        let max_days = match read_days(fields, "change_max_days") {
            Ok(days) => days,
            Err(_) => {
                return Err(Failure::TryAgain);
            },
        };
        let warn_days = match read_days(fields, "change_warn_days") {
            Ok(days) => days,
            Err(_) => {
                return Err(Failure::TryAgain);
            },
        };
        let inactive_days = match read_days(fields, "change_inactive_days") {
            Ok(days) => days,
            Err(_) => {
                return Err(Failure::TryAgain);
            },
        };
        let expire_date = match read_days(fields, "expire_date") {
            Ok(days) => days,
            Err(_) => {
                return Err(Failure::TryAgain);
            },
        };
        let reserved = match read_reserved(fields, "reserved") {
            Ok(reserved) => reserved,
            Err(_) => {
                return Err(Failure::TryAgain);
            },
        };
        Ok(
            ShadowRecord {
                name: name.clone(),
                passwd,
                last_change,
                min_days,
                max_days,
                warn_days,
                inactive_days,
                expire_date,
                reserved,
            },
        )
    }

    fn from_line(line: &str) -> (result: Result<ShadowRecord, Failure>) {
        let chars = chars_of(line);
        if count(chars.as_slice(), ':') < SHADOW_SEPARATORS {
            return Err(Failure::TryAgain);
        }
        let (start, end) = trim_bounds(chars.as_slice());
        let fields = split_fields(
            slice_subrange(chars.as_slice(), start, end),
            ':',
            SHADOW_FIELDS,
        );
        ShadowRecord::from_fields(&fields)
    }

    fn name(&self) -> (name: &String) {
        &self.name
    }
}

/// Reads all the credentials of an answer.
pub fn all_entries(response: &Response) -> (result: Result<Vec<ShadowRecord>, Failure>)
    ensures
        reports_all(Outcome::of(result), all_records::<ShadowRecord>(response@)),
{
    read_all::<ShadowRecord>(response)
}

/// Reads the credentials of the user named `name` from an answer.
pub fn entry_by_name(response: &Response, name: &str) -> (result: Result<ShadowRecord, Failure>)
    ensures
        reports(Outcome::of(result), record_named::<ShadowRecord>(response@, name@)),
{
    read_named::<ShadowRecord>(response, name)
}

/// All credentials, by what was captured from the command for them.
pub open spec fn all_shadows(output: Option<Seq<u8>>) -> Result<Seq<ShadowView>, Failure> {
    every_record::<ShadowRecord>(answered(output))
}

/// The credentials of the user named `name`, by what was captured from the
/// command for them.
pub open spec fn shadow_by_name(output: Option<Seq<u8>>, name: Seq<char>) -> Result<
    ShadowView,
    Failure,
> {
    named_record::<ShadowRecord>(answered(output), name)
}

/// Answers the question for all credentials from what was captured from the
/// command, `None` standing for a command that could not be run.
pub fn get_all_entries(output: Option<&[u8]>) -> (outcome: Outcome<Vec<ShadowRecord>>)
    ensures
        reports_all(outcome, all_shadows(output_view(output))),
{
    match answer(output) {
        Ok(response) => Outcome::from_result(all_entries(&response)),
        Err(Failure::NotFound) => Outcome::TryAgain,
        Err(failure) => Outcome::from_result(Err(failure)),
    }
}

/// Answers the question for the credentials of the user named `name`.
pub fn get_entry_by_name(output: Option<&[u8]>, name: &str) -> (outcome: Outcome<ShadowRecord>)
    ensures
        reports(outcome, shadow_by_name(output_view(output), name@)),
{
    match answer(output) {
        Ok(response) => Outcome::from_result(entry_by_name(&response, name)),
        Err(failure) => Outcome::from_result(Err(failure)),
    }
}

} // verus!
