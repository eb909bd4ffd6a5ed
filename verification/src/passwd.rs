//! Passwd records and the three lookups for them.

use vstd::prelude::*;
use vstd::slice::slice_subrange;

use crate::fields::{
    id_at, id_field, read_id, read_text, required_at, take_id, take_required, take_text, text_at,
    text_field,
};
use crate::json::{Json, JsonValue};
use crate::number::decimal_u32;
use crate::output::output_view;
use crate::record::{
    all_records, every_record, first_record, named_record, read_all, read_first, read_named, Record,
    record_named, reports, reports_all,
};
use crate::response::{answer, answered, Response, ResponseView};
use crate::status::{Failure, Outcome};
use crate::text::{
    chars_of, count, fields_of, occurrences, split_fields, texts_of, trim_bounds, trimmed,
    trimmed_line_has_its_fields,
};

verus! {

/// The content of a [`PasswdRecord`].
pub struct PasswdView {
    pub name: Seq<char>,
    pub passwd: Seq<char>,
    pub uid: u32,
    pub gid: u32,
    pub gecos: Seq<char>,
    pub home_dir: Seq<char>,
    pub shell: Seq<char>,
}

/// A user: name, password field, user id, group id, the descriptive field,
/// home directory and shell.
#[derive(Clone, Debug, PartialEq, Eq)]
pub struct PasswdRecord {
    pub name: String,
    pub passwd: String,
    pub uid: u32,
    pub gid: u32,
    pub gecos: String,
    pub home_dir: String,
    pub shell: String,
}

impl View for PasswdRecord {
    type V = PasswdView;

    open spec fn view(&self) -> PasswdView {
        PasswdView {
            name: self.name@,
            passwd: self.passwd@,
            uid: self.uid,
            gid: self.gid,
            gecos: self.gecos@,
            home_dir: self.home_dir@,
            shell: self.shell@,
        }
    }
}

/// The fewest colons that a line for a user has.
pub const PASSWD_SEPARATORS: usize = 6;

/// The most fields that a line for a user is split into.
pub const PASSWD_FIELDS: usize = 7;

/// The user that a structured entry describes. The entry's key is the user's
/// name; its value is an object with `uid` and `gid`, and with `passwd`,
/// `gecos`, `dir` and `shell` where they are not empty.
pub open spec fn passwd_of_entry(name: Seq<char>, value: JsonValue) -> Result<PasswdView, Failure> {
    match value.object() {
        None => Err(Failure::TryAgain),
        Some(fields) => match (
            text_field(fields, "passwd"@),
            id_field(fields, "uid"@),
            id_field(fields, "gid"@),
            text_field(fields, "gecos"@),
            text_field(fields, "dir"@),
            text_field(fields, "shell"@),
        ) {
            (Ok(passwd), Ok(uid), Ok(gid), Ok(gecos), Ok(home_dir), Ok(shell)) => Ok(
                PasswdView { name, passwd, uid, gid, gecos, home_dir, shell },
            ),
            _ => Err(Failure::TryAgain),
        },
    }
}

/// The user that the fields of a line describe, in the order of the
/// record's fields. The name and the two ids have to be there.
pub open spec fn passwd_of_fields(fields: Seq<Seq<char>>) -> Result<PasswdView, Failure> {
    match (required_at(fields, 0), id_at(fields, 2), id_at(fields, 3)) {
        (Ok(name), Ok(uid), Ok(gid)) => Ok(
            PasswdView {
                name,
                passwd: text_at(fields, 1),
                uid,
                gid,
                gecos: text_at(fields, 4),
                home_dir: text_at(fields, 5),
                shell: text_at(fields, 6),
            },
        ),
        _ => Err(Failure::TryAgain),
    }
}

/// The user that a flat line describes. The line needs six colons; what
/// follows the sixth is the shell, whatever it holds.
pub open spec fn passwd_of_line(line: Seq<char>) -> Result<PasswdView, Failure> {
    if occurrences(line, ':') < PASSWD_SEPARATORS {
        Err(Failure::TryAgain)
    } else {
        passwd_of_fields(fields_of(trimmed(line), ':', PASSWD_FIELDS as nat))
    }
}

/// A line is read as a user exactly when it has six colons and its third and
/// fourth fields write ids: the seven fields are then all there, and nothing
/// else can be wrong with them. Whatever fails, fails with the advice to try
/// again.
pub proof fn passwd_line_is_read(line: Seq<char>)
    ensures
        passwd_of_line(line) is Ok <==> occurrences(line, ':') >= 6 && decimal_u32(
            fields_of(trimmed(line), ':', 7)[2],
        ) is Some && decimal_u32(fields_of(trimmed(line), ':', 7)[3]) is Some,
        occurrences(line, ':') >= 6 ==> fields_of(trimmed(line), ':', 7).len() == 7,
        passwd_of_line(line) matches Err(failure) ==> failure == Failure::TryAgain,
{
    if occurrences(line, ':') >= 6 {
        trimmed_line_has_its_fields(line, ':', 7);
    }
}

/// A structured entry is read as a user only with the name of its key, and
/// never with anything but the advice to try again where it is not read.
pub proof fn passwd_entry_is_read(name: Seq<char>, value: JsonValue)
    ensures
        passwd_of_entry(name, value) matches Ok(record) ==> record.name == name && id_field(
            value.object()->Some_0,
            "uid"@,
        ) == Ok::<u32, Failure>(record.uid),
        passwd_of_entry(name, value) matches Err(failure) ==> failure == Failure::TryAgain,
{
}

impl PasswdRecord {
    /// Reads the user that the fields of a line describe.
    pub fn from_fields(fields: &Vec<String>) -> (result: Result<PasswdRecord, Failure>)
        ensures
            match result {
                Ok(record) => passwd_of_fields(texts_of(fields@)) == Ok::<PasswdView, Failure>(
                    record@,
                ),
                Err(failure) => passwd_of_fields(texts_of(fields@)) == Err::<PasswdView, Failure>(
                    failure,
                ),
            },
    {
        let name = match take_required(fields, 0) {
            Ok(name) => name,
            Err(_) => {
                return Err(Failure::TryAgain);
            },
        };
        let uid = match take_id(fields, 2) {
            Ok(uid) => uid,
            Err(_) => {
                return Err(Failure::TryAgain);
            },
        };
        let gid = match take_id(fields, 3) {
            Ok(gid) => gid,
            Err(_) => {
                return Err(Failure::TryAgain);
            },
        };
        Ok(
            PasswdRecord {
                name,
                passwd: take_text(fields, 1),
                uid,
                gid,
                gecos: take_text(fields, 4),
                home_dir: take_text(fields, 5),
                shell: take_text(fields, 6),
            },
        )
    }
}

impl Record for PasswdRecord {
    open spec fn of_entry(name: Seq<char>, value: JsonValue) -> Result<PasswdView, Failure> {
        passwd_of_entry(name, value)
    }

    open spec fn of_line(line: Seq<char>) -> Result<PasswdView, Failure> {
        passwd_of_line(line)
    }

    open spec fn name_of(record: PasswdView) -> Seq<char> {
        record.name
    }

    fn from_entry(name: &String, value: &Json) -> (result: Result<PasswdRecord, Failure>) {
        let fields = match value.as_object() {
            Some(fields) => fields,
            None => {
                return Err(Failure::TryAgain);
            },
        };
        let passwd = match read_text(fields, "passwd") {
            Ok(passwd) => passwd,
            Err(_) => {
                return Err(Failure::TryAgain);
            },
        };
        let uid = match read_id(fields, "uid") {
            Ok(uid) => uid,
            Err(_) => {
                return Err(Failure::TryAgain);
            },
        };
        let gid = match read_id(fields, "gid") {
            Ok(gid) => gid,
            Err(_) => {
                return Err(Failure::TryAgain);
            },
        };
        let gecos = match read_text(fields, "gecos") {
            Ok(gecos) => gecos,
            Err(_) => {
                return Err(Failure::TryAgain);
            },
        };
        let home_dir = match read_text(fields, "dir") {
            Ok(home_dir) => home_dir,
            Err(_) => {
                return Err(Failure::TryAgain);
            },
        };
        let shell = match read_text(fields, "shell") {
            Ok(shell) => shell,
            Err(_) => {
                return Err(Failure::TryAgain);
            },
        };
        Ok(PasswdRecord { name: name.clone(), passwd, uid, gid, gecos, home_dir, shell })
    }

    fn from_line(line: &str) -> (result: Result<PasswdRecord, Failure>) {
        let chars = chars_of(line);
        if count(chars.as_slice(), ':') < PASSWD_SEPARATORS {
            return Err(Failure::TryAgain);
        }
        let (start, end) = trim_bounds(chars.as_slice());
        let fields = split_fields(
            slice_subrange(chars.as_slice(), start, end),
            ':',
            PASSWD_FIELDS,
        );
        PasswdRecord::from_fields(&fields)
    }

    fn name(&self) -> (name: &String) {
        &self.name
    }
}

/// The user that answers a question for the id `uid`: the first of the
/// answer, whose user id must be that very id.
pub open spec fn passwd_with_uid(response: ResponseView, uid: u32) -> Result<PasswdView, Failure> {
    match first_record::<PasswdRecord>(response) {
        Ok(record) => if record.uid == uid {
            Ok(record)
        } else {
            Err(Failure::TryAgain)
        },
        Err(failure) => Err(failure),
    }
}

/// Reads all the users of an answer.
pub fn all_entries(response: &Response) -> (result: Result<Vec<PasswdRecord>, Failure>)
    ensures
        reports_all(Outcome::of(result), all_records::<PasswdRecord>(response@)),
{
    read_all::<PasswdRecord>(response)
}

/// Reads the user with the id `uid` from an answer.
pub fn entry_by_uid(response: &Response, uid: u32) -> (result: Result<PasswdRecord, Failure>)
    ensures
        reports(Outcome::of(result), passwd_with_uid(response@, uid)),
{
    match read_first::<PasswdRecord>(response) {
        Ok(record) => if record.uid == uid {
            Ok(record)
        } else {
            Err(Failure::TryAgain)
        },
        Err(failure) => Err(failure),
    }
}

/// Reads the user named `name` from an answer.
pub fn entry_by_name(response: &Response, name: &str) -> (result: Result<PasswdRecord, Failure>)
    ensures
        reports(Outcome::of(result), record_named::<PasswdRecord>(response@, name@)),
{
    read_named::<PasswdRecord>(response, name)
}

/// All users, by what was captured from the command for them.
pub open spec fn all_passwds(output: Option<Seq<u8>>) -> Result<Seq<PasswdView>, Failure> {
    every_record::<PasswdRecord>(answered(output))
}

/// The user with the id `uid`, by what was captured from the command for it.
pub open spec fn passwd_by_uid(output: Option<Seq<u8>>, uid: u32) -> Result<PasswdView, Failure> {
    match answered(output) {
        Ok(response) => passwd_with_uid(response, uid),
        Err(failure) => Err(failure),
    }
}

/// The user named `name`, by what was captured from the command for it.
pub open spec fn passwd_by_name(output: Option<Seq<u8>>, name: Seq<char>) -> Result<
    PasswdView,
    Failure,
> {
    named_record::<PasswdRecord>(answered(output), name)
}

/// Answers the question for all users from what was captured from the
/// command, `None` standing for a command that could not be run.
pub fn get_all_entries(output: Option<&[u8]>) -> (outcome: Outcome<Vec<PasswdRecord>>)
    ensures
        reports_all(outcome, all_passwds(output_view(output))),
{
    match answer(output) {
        Ok(response) => Outcome::from_result(all_entries(&response)),
        Err(Failure::NotFound) => Outcome::TryAgain,
        Err(failure) => Outcome::from_result(Err(failure)),
    }
}

/// Answers the question for the user with the id `uid`.
pub fn get_entry_by_uid(output: Option<&[u8]>, uid: u32) -> (outcome: Outcome<PasswdRecord>)
    ensures
        reports(outcome, passwd_by_uid(output_view(output), uid)),
{
    match answer(output) {
        Ok(response) => Outcome::from_result(entry_by_uid(&response, uid)),
        Err(failure) => Outcome::from_result(Err(failure)),
    }
}

/// Answers the question for the user named `name`.
pub fn get_entry_by_name(output: Option<&[u8]>, name: &str) -> (outcome: Outcome<PasswdRecord>)
    ensures
        reports(outcome, passwd_by_name(output_view(output), name@)),
{
    match answer(output) {
        Ok(response) => Outcome::from_result(entry_by_name(&response, name)),
        Err(failure) => Outcome::from_result(Err(failure)),
    }
}

/// A user found by id has that id; where the first record of the answer has
/// another, the answer is not trusted.
pub proof fn passwd_found_has_the_uid(response: ResponseView, uid: u32)
    ensures
        passwd_with_uid(response, uid) matches Ok(record) ==> record.uid == uid,
        first_record::<PasswdRecord>(response) matches Ok(record) && record.uid != uid
            ==> passwd_with_uid(response, uid) == Err::<PasswdView, Failure>(Failure::TryAgain),
{
}

} // verus!
