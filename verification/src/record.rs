//! Records out of an answer: all of them, or the one that was asked for.

use vstd::prelude::*;

use crate::json::{Json, JsonValue};
use crate::response::{Response, ResponseView};
use crate::status::{Failure, Outcome};
use crate::text::same_text;

verus! {

/// A kind of record that an answer can hold, in either of its shapes.
pub trait Record: View + Sized {
    /// The record that a structured entry describes: its name is the entry's
    /// key, its other fields are read from the entry's value.
    spec fn of_entry(name: Seq<char>, value: JsonValue) -> Result<Self::V, Failure>;

    /// The record that a flat line describes.
    spec fn of_line(line: Seq<char>) -> Result<Self::V, Failure>;

    /// The name that a record goes by.
    spec fn name_of(record: Self::V) -> Seq<char>;

    /// Reads the record of a structured entry.
    fn from_entry(name: &String, value: &Json) -> (result: Result<Self, Failure>)
        ensures
            match result {
                Ok(record) => Self::of_entry(name@, value@) == Ok::<Self::V, Failure>(record@),
                Err(failure) => Self::of_entry(name@, value@) == Err::<Self::V, Failure>(failure),
            },
    ;

    /// Reads the record of a flat line.
    fn from_line(line: &str) -> (result: Result<Self, Failure>)
        ensures
            match result {
                Ok(record) => Self::of_line(line@) == Ok::<Self::V, Failure>(record@),
                Err(failure) => Self::of_line(line@) == Err::<Self::V, Failure>(failure),
            },
    ;

    /// The name that this record goes by.
    fn name(&self) -> (name: &String)
        ensures
            name@ == Self::name_of(self@),
    ;
}

/// The content of the records that a vector holds, in order.
pub open spec fn records_view<R: View>(records: Seq<R>) -> Seq<R::V> {
    Seq::new(records.len(), |i: int| records[i]@)
}

/// Whether `outcome` hands on what `result` says: the record's content, or
/// the failure.
pub open spec fn reports<R: View>(outcome: Outcome<R>, result: Result<R::V, Failure>) -> bool {
    match outcome {
        Outcome::Success(record) => result == Ok::<R::V, Failure>(record@),
        Outcome::NotFound => result == Err::<R::V, Failure>(Failure::NotFound),
        Outcome::TryAgain => result == Err::<R::V, Failure>(Failure::TryAgain),
        Outcome::Unavailable => result == Err::<R::V, Failure>(Failure::Unavailable),
    }
}

/// Whether `outcome` hands on what `result` says: the records' content, or
/// the failure.
pub open spec fn reports_all<R: View>(
    outcome: Outcome<Vec<R>>,
    result: Result<Seq<R::V>, Failure>,
) -> bool {
    match outcome {
        Outcome::Success(records) => result == Ok::<Seq<R::V>, Failure>(records_view(records@)),
        Outcome::NotFound => result == Err::<Seq<R::V>, Failure>(Failure::NotFound),
        Outcome::TryAgain => result == Err::<Seq<R::V>, Failure>(Failure::TryAgain),
        Outcome::Unavailable => result == Err::<Seq<R::V>, Failure>(Failure::Unavailable),
    }
}

/// How many records an answer holds.
pub open spec fn size(response: ResponseView) -> nat {
    match response {
        ResponseView::Structured(entries) => entries.len(),
        ResponseView::Flat(lines) => lines.len(),
    }
}

/// What reading the record at position `at` of an answer gives.
pub open spec fn record_at<R: Record>(response: ResponseView, at: int) -> Result<R::V, Failure> {
    match response {
        ResponseView::Structured(entries) => R::of_entry(entries[at].0, entries[at].1),
        ResponseView::Flat(lines) => R::of_line(lines[at]),
    }
}

/// Whether every record of the answer can be read.
pub open spec fn all_readable<R: Record>(response: ResponseView) -> bool {
    forall|i: int| 0 <= i < size(response) ==> (#[trigger] record_at::<R>(response, i)) is Ok
}

/// All the records of an answer, in its order. Every one of them has to be
/// readable, and there has to be one at least: an answer without records is
/// not trusted.
pub open spec fn all_records<R: Record>(response: ResponseView) -> Result<Seq<R::V>, Failure> {
    if size(response) > 0 && all_readable::<R>(response) {
        Ok(Seq::new(size(response), |i: int| record_at::<R>(response, i)->Ok_0))
    } else {
        Err(Failure::TryAgain)
    }
}

/// All the records of what a command gave for answer. Where all records are
/// asked for, an answer that says that nothing was found is not trusted
/// either: a database without records is taken for a fault of the command.
pub open spec fn every_record<R: Record>(answer: Result<ResponseView, Failure>) -> Result<
    Seq<R::V>,
    Failure,
> {
    match answer {
        Ok(response) => all_records::<R>(response),
        Err(Failure::NotFound) => Err(Failure::TryAgain),
        Err(failure) => Err(failure),
    }
}

/// The record that an answer to a question for one record gives: its first.
/// An answer without records says that nothing was found.
pub open spec fn first_record<R: Record>(response: ResponseView) -> Result<R::V, Failure> {
    if size(response) == 0 {
        Err(Failure::NotFound)
    } else {
        record_at::<R>(response, 0)
    }
}

/// The record that answers a question for the name `name`: the first of the
/// answer, which must go by that very name.
pub open spec fn record_named<R: Record>(response: ResponseView, name: Seq<char>) -> Result<
    R::V,
    Failure,
> {
    match first_record::<R>(response) {
        Ok(record) => if R::name_of(record) == name {
            Ok(record)
        } else {
            Err(Failure::TryAgain)
        },
        Err(failure) => Err(failure),
    }
}

/// The record named `name` of what a command gave for answer.
pub open spec fn named_record<R: Record>(
    answer: Result<ResponseView, Failure>,
    name: Seq<char>,
) -> Result<R::V, Failure> {
    match answer {
        Ok(response) => record_named::<R>(response, name),
        Err(failure) => Err(failure),
    }
}

/// Reads the record at position `at` of an answer.
fn read_at<R: Record>(response: &Response, at: usize) -> (result: Result<R, Failure>)
    requires
        at < size(response@),
    ensures
        match result {
            Ok(record) => record_at::<R>(response@, at as int) == Ok::<R::V, Failure>(record@),
            Err(failure) => record_at::<R>(response@, at as int) == Err::<R::V, Failure>(failure),
        },
{
    match response {
        Response::Structured(entries) => R::from_entry(&entries[at].0, &entries[at].1),
        Response::Flat(lines) => R::from_line(lines[at].as_str()),
    }
}

/// How many records the answer holds.
fn count_records(response: &Response) -> (n: usize)
    ensures
        n == size(response@),
{
    match response {
        Response::Structured(entries) => entries.len(),
        Response::Flat(lines) => lines.len(),
    }
}

/// Reads all the records of an answer.
pub fn read_all<R: Record>(response: &Response) -> (result: Result<Vec<R>, Failure>)
    ensures
        match result {
            Ok(records) => all_records::<R>(response@) == Ok::<Seq<R::V>, Failure>(
                records_view(records@),
            ),
            Err(failure) => all_records::<R>(response@) == Err::<Seq<R::V>, Failure>(failure),
        },
{
    let n = count_records(response);
    let mut records: Vec<R> = Vec::new();
    let mut i: usize = 0;
    while i < n
        invariant
            i <= n == size(response@),
            records@.len() == i,
            forall|k: int|
                0 <= k < i ==> record_at::<R>(response@, k) == Ok::<R::V, Failure>(
                    (#[trigger] records@[k])@,
                ),
        decreases n - i,
    {
        match read_at::<R>(response, i) {
            Ok(record) => {
                records.push(record);
            },
            Err(_) => {
                assert(!(record_at::<R>(response@, i as int) is Ok));
                return Err(Failure::TryAgain);
            },
        }
        i += 1;
    }
    if n == 0 {
        return Err(Failure::TryAgain);
    }
    proof {
        assert forall|k: int| 0 <= k < size(response@) implies (#[trigger] record_at::<R>(
            response@,
            k,
        )) is Ok by {
            assert(record_at::<R>(response@, k) == Ok::<R::V, Failure>(records@[k]@));
        }
        assert(records_view(records@) =~= Seq::new(
            size(response@),
            |i: int| record_at::<R>(response@, i)->Ok_0,
        ));
    }
    Ok(records)
}

/// Reads the first record of an answer.
pub fn read_first<R: Record>(response: &Response) -> (result: Result<R, Failure>)
    ensures
        match result {
            Ok(record) => first_record::<R>(response@) == Ok::<R::V, Failure>(record@),
            Err(failure) => first_record::<R>(response@) == Err::<R::V, Failure>(failure),
        },
{
    if count_records(response) == 0 {
        Err(Failure::NotFound)
    } else {
        read_at::<R>(response, 0)
    }
}

/// Reads the record that answers a question for the name `name`.
pub fn read_named<R: Record>(response: &Response, name: &str) -> (result: Result<R, Failure>)
    ensures
        match result {
            Ok(record) => record_named::<R>(response@, name@) == Ok::<R::V, Failure>(record@),
            Err(failure) => record_named::<R>(response@, name@) == Err::<R::V, Failure>(failure),
        },
{
    match read_first::<R>(response) {
        Ok(record) => if same_text(record.name().as_str(), name) {
            Ok(record)
        } else {
            Err(Failure::TryAgain)
        },
        Err(failure) => Err(failure),
    }
}

/// Reading all records never succeeds with an empty list, and what it gives
/// has a record for every entry or line of the answer.
pub proof fn all_records_is_never_empty<R: Record>(response: ResponseView)
    ensures
        all_records::<R>(response) matches Ok(records) ==> records.len() == size(response)
            && records.len() > 0,
        size(response) == 0 ==> all_records::<R>(response) == Err::<Seq<R::V>, Failure>(
            Failure::TryAgain,
        ),
        all_records::<R>(response) matches Err(failure) ==> failure == Failure::TryAgain,
{
}

/// A question for all records is never answered by an empty list, and never
/// by saying that nothing was found: where there are no records, for
/// whatever reason, the answer is to try again.
pub proof fn every_record_is_never_empty<R: Record>(answer: Result<ResponseView, Failure>)
    ensures
        every_record::<R>(answer) matches Ok(records) ==> records.len() > 0,
        every_record::<R>(answer) != Err::<Seq<R::V>, Failure>(Failure::NotFound),
        answer == Err::<ResponseView, Failure>(Failure::NotFound) ==> every_record::<R>(answer)
            == Err::<Seq<R::V>, Failure>(Failure::TryAgain),
        answer matches Ok(response) && size(response) == 0 ==> every_record::<R>(answer) == Err::<
            Seq<R::V>,
            Failure,
        >(Failure::TryAgain),
{
}

/// What is read from an answer depends on the answer and on what was asked
/// for, and on nothing else: the same answer gives the same records again,
/// field by field, or the same failure.
pub proof fn records_are_repeatable<R: Record>(
    first: Result<ResponseView, Failure>,
    second: Result<ResponseView, Failure>,
    name: Seq<char>,
)
    requires
        first == second,
    ensures
        every_record::<R>(first) == every_record::<R>(second),
        named_record::<R>(first, name) == named_record::<R>(second, name),
{
}

/// A record found by name goes by the name that was asked for.
pub proof fn named_record_has_the_name<R: Record>(response: ResponseView, name: Seq<char>)
    ensures
        record_named::<R>(response, name) matches Ok(record) ==> R::name_of(record) == name
            && first_record::<R>(response) == Ok::<R::V, Failure>(record),
        first_record::<R>(response) matches Ok(record) && R::name_of(record) != name
            ==> record_named::<R>(response, name) == Err::<R::V, Failure>(Failure::TryAgain),
{
}

} // verus!
