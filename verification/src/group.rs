//! Group records and the three lookups for them.

use vstd::prelude::*;
use vstd::slice::slice_subrange;

use crate::fields::{
    field_at, id_at, id_field, list_field, read_id, read_list, read_text, required_at, take_id,
    take_required, take_text, text_at, text_field,
};
use crate::json::{Json, JsonValue};
use crate::number::decimal_u32;
use crate::output::output_view;
use crate::record::{
    all_records, every_record, first_record, named_record, read_all, read_first, read_named, Record,
    record_named, reports, reports_all,
};
use crate::response::{answer, answered, Response, ResponseView};
use crate::status::{Failure, Outcome};
use crate::text::{
    all_fields_of, chars_of, count, fields_of, occurrences, split_all, split_fields, texts_of,
    trim_bounds, trimmed, trimmed_line_has_its_fields,
};

verus! {

/// The content of a [`GroupRecord`].
pub struct GroupView {
    pub name: Seq<char>,
    pub passwd: Seq<char>,
    pub gid: u32,
    pub members: Seq<Seq<char>>,
}

/// A group: its name, its password field, its id and the names of its
/// members, in the order given.
#[derive(Clone, Debug, PartialEq, Eq)]
pub struct GroupRecord {
    pub name: String,
    pub passwd: String,
    pub gid: u32,
    pub members: Vec<String>,
}

impl View for GroupRecord {
    type V = GroupView;

    open spec fn view(&self) -> GroupView {
        GroupView {
            name: self.name@,
            passwd: self.passwd@,
            gid: self.gid,
            members: texts_of(self.members@),
        }
    }
}

/// The fewest colons that a line for a group has.
pub const GROUP_SEPARATORS: usize = 3;

/// The most fields that a line for a group is split into.
pub const GROUP_FIELDS: usize = 4;

/// The group that a structured entry describes. The entry's key is the
/// group's name; its value is an object with `gid`, and with `passwd` and
/// `members` where they are not empty.
pub open spec fn group_of_entry(name: Seq<char>, value: JsonValue) -> Result<GroupView, Failure> {
    match value.object() {
        None => Err(Failure::TryAgain),
        Some(fields) => match (
            text_field(fields, "passwd"@),
            id_field(fields, "gid"@),
            list_field(fields, "members"@),
        ) {
            (Ok(passwd), Ok(gid), Ok(members)) => Ok(GroupView { name, passwd, gid, members }),
            _ => Err(Failure::TryAgain),
        },
    }
}

/// The members that the last field of a line names: the field split at its
/// commas, and nobody where the line has no such field.
pub open spec fn members_at(fields: Seq<Seq<char>>, at: int) -> Seq<Seq<char>> {
    match field_at(fields, at) {
        Some(text) => all_fields_of(text, ','),
        None => Seq::empty(),
    }
}

/// The group that the fields of a line describe: name, password, id and
/// members. The name and the id have to be there.
pub open spec fn group_of_fields(fields: Seq<Seq<char>>) -> Result<GroupView, Failure> {
    match (required_at(fields, 0), id_at(fields, 2)) {
        (Ok(name), Ok(gid)) => Ok(
            GroupView { name, passwd: text_at(fields, 1), gid, members: members_at(fields, 3) },
        ),
        _ => Err(Failure::TryAgain),
    }
}

/// The group that a flat line describes. The line needs three colons; what
/// follows the third is the list of members, whatever it holds.
pub open spec fn group_of_line(line: Seq<char>) -> Result<GroupView, Failure> {
    if occurrences(line, ':') < GROUP_SEPARATORS {
        Err(Failure::TryAgain)
    } else {
        group_of_fields(fields_of(trimmed(line), ':', GROUP_FIELDS as nat))
    }
}

/// A line is read as a group exactly when it has three colons and its third
/// field writes an id: the four fields are then all there, and nothing else
/// can be wrong with them. Whatever fails, fails with the advice to try
/// again.
pub proof fn group_line_is_read(line: Seq<char>)
    ensures
        group_of_line(line) is Ok <==> occurrences(line, ':') >= 3 && decimal_u32(
            fields_of(trimmed(line), ':', 4)[2],
        ) is Some,
        occurrences(line, ':') >= 3 ==> fields_of(trimmed(line), ':', 4).len() == 4,
        group_of_line(line) matches Err(failure) ==> failure == Failure::TryAgain,
{
    if occurrences(line, ':') >= 3 {
        trimmed_line_has_its_fields(line, ':', 4);
    }
}

/// A structured entry is read as a group only with the name of its key, and
/// never with anything but the advice to try again where it is not read.
pub proof fn group_entry_is_read(name: Seq<char>, value: JsonValue)
    ensures
        group_of_entry(name, value) matches Ok(record) ==> record.name == name && id_field(
            value.object()->Some_0,
            "gid"@,
        ) == Ok::<u32, Failure>(record.gid),
        group_of_entry(name, value) matches Err(failure) ==> failure == Failure::TryAgain,
{
}

impl GroupRecord {
    /// Reads the group that the fields of a line describe.
    pub fn from_fields(fields: &Vec<String>) -> (result: Result<GroupRecord, Failure>)
        ensures
            match result {
                Ok(record) => group_of_fields(texts_of(fields@)) == Ok::<GroupView, Failure>(
                    record@,
                ),
                Err(failure) => group_of_fields(texts_of(fields@)) == Err::<GroupView, Failure>(
                    failure,
                ),
            },
    {
        let name = match take_required(fields, 0) {
            Ok(name) => name,
            Err(_) => {
                return Err(Failure::TryAgain);
            },
        };
        let gid = match take_id(fields, 2) {
            Ok(gid) => gid,
            Err(_) => {
                return Err(Failure::TryAgain);
            },
        };
        let passwd = take_text(fields, 1);
        let members = if fields.len() > 3 {
            let list = chars_of(fields[3].as_str());
            split_all(list.as_slice(), ',')
        } else {
            let nobody: Vec<String> = Vec::new();
            assert(texts_of(nobody@) =~= Seq::<Seq<char>>::empty());
            nobody
        };
        Ok(GroupRecord { name, passwd, gid, members })
    }
}

impl Record for GroupRecord {
    open spec fn of_entry(name: Seq<char>, value: JsonValue) -> Result<GroupView, Failure> {
        group_of_entry(name, value)
    }

    open spec fn of_line(line: Seq<char>) -> Result<GroupView, Failure> {
        group_of_line(line)
    }

    open spec fn name_of(record: GroupView) -> Seq<char> {
        record.name
    }

    fn from_entry(name: &String, value: &Json) -> (result: Result<GroupRecord, Failure>) {
        let fields = match value.as_object() {
            Some(fields) => fields,
            None => {
                return Err(Failure::TryAgain);
            },
        };
        let passwd = match read_text(fields, "passwd") {
            Ok(passwd) => passwd,
            Err(_) => {
                return Err(Failure::TryAgain);
            },
        };
        let gid = match read_id(fields, "gid") {
            Ok(gid) => gid,
            Err(_) => {
                return Err(Failure::TryAgain);
            },
        };
        let members = match read_list(fields, "members") {
            Ok(members) => members,
            Err(_) => {
                return Err(Failure::TryAgain);
            },
        };
        Ok(GroupRecord { name: name.clone(), passwd, gid, members })
    }

    fn from_line(line: &str) -> (result: Result<GroupRecord, Failure>) {
        let chars = chars_of(line);
        if count(chars.as_slice(), ':') < GROUP_SEPARATORS {
            return Err(Failure::TryAgain);
        }
        let (start, end) = trim_bounds(chars.as_slice());
        let fields = split_fields(slice_subrange(chars.as_slice(), start, end), ':', GROUP_FIELDS);
        GroupRecord::from_fields(&fields)
    }

    fn name(&self) -> (name: &String) {
        &self.name
    }
}

/// The group that answers a question for the id `gid`: the first of the
/// answer, whose id must be that very id.
pub open spec fn group_with_gid(response: ResponseView, gid: u32) -> Result<GroupView, Failure> {
    match first_record::<GroupRecord>(response) {
        Ok(record) => if record.gid == gid {
            Ok(record)
        } else {
            Err(Failure::TryAgain)
        },
        Err(failure) => Err(failure),
    }
}

/// Reads all the groups of an answer.
pub fn all_entries(response: &Response) -> (result: Result<Vec<GroupRecord>, Failure>)
    ensures
        reports_all(Outcome::of(result), all_records::<GroupRecord>(response@)),
{
    read_all::<GroupRecord>(response)
}

/// Reads the group with the id `gid` from an answer.
pub fn entry_by_gid(response: &Response, gid: u32) -> (result: Result<GroupRecord, Failure>)
    ensures
        reports(Outcome::of(result), group_with_gid(response@, gid)),
{
    match read_first::<GroupRecord>(response) {
        Ok(record) => if record.gid == gid {
            Ok(record)
        } else {
            Err(Failure::TryAgain)
        },
        Err(failure) => Err(failure),
    }
}

/// Reads the group named `name` from an answer.
pub fn entry_by_name(response: &Response, name: &str) -> (result: Result<GroupRecord, Failure>)
    ensures
        reports(Outcome::of(result), record_named::<GroupRecord>(response@, name@)),
{
    read_named::<GroupRecord>(response, name)
}

/// All groups, by what was captured from the command for them.
pub open spec fn all_groups(output: Option<Seq<u8>>) -> Result<Seq<GroupView>, Failure> {
    every_record::<GroupRecord>(answered(output))
}

/// The group with the id `gid`, by what was captured from the command for
/// it.
pub open spec fn group_by_gid(output: Option<Seq<u8>>, gid: u32) -> Result<GroupView, Failure> {
    match answered(output) {
        Ok(response) => group_with_gid(response, gid),
        Err(failure) => Err(failure),
    }
}

/// The group named `name`, by what was captured from the command for it.
pub open spec fn group_by_name(output: Option<Seq<u8>>, name: Seq<char>) -> Result<
    GroupView,
    Failure,
> {
    named_record::<GroupRecord>(answered(output), name)
}

/// Answers the question for all groups from what was captured from the
/// command, `None` standing for a command that could not be run.
pub fn get_all_entries(output: Option<&[u8]>) -> (outcome: Outcome<Vec<GroupRecord>>)
    ensures
        reports_all(outcome, all_groups(output_view(output))),
{
    match answer(output) {
        Ok(response) => Outcome::from_result(all_entries(&response)),
        Err(Failure::NotFound) => Outcome::TryAgain,
        Err(failure) => Outcome::from_result(Err(failure)),
    }
}

/// Answers the question for the group with the id `gid`.
pub fn get_entry_by_gid(output: Option<&[u8]>, gid: u32) -> (outcome: Outcome<GroupRecord>)
    ensures
        reports(outcome, group_by_gid(output_view(output), gid)),
{
    match answer(output) {
        Ok(response) => Outcome::from_result(entry_by_gid(&response, gid)),
        Err(failure) => Outcome::from_result(Err(failure)),
    }
}

/// Answers the question for the group named `name`.
pub fn get_entry_by_name(output: Option<&[u8]>, name: &str) -> (outcome: Outcome<GroupRecord>)
    ensures
        reports(outcome, group_by_name(output_view(output), name@)),
{
    match answer(output) {
        Ok(response) => Outcome::from_result(entry_by_name(&response, name)),
        Err(failure) => Outcome::from_result(Err(failure)),
    }
}

/// A group found by its id has that id; where the first record of the answer
/// has another, the answer is not trusted.
pub proof fn group_found_has_the_gid(response: ResponseView, gid: u32)
    ensures
        group_with_gid(response, gid) matches Ok(record) ==> record.gid == gid,
        first_record::<GroupRecord>(response) matches Ok(record) && record.gid != gid
            ==> group_with_gid(response, gid) == Err::<GroupView, Failure>(Failure::TryAgain),
{
}

} // verus!
