//! The two shapes of an answer: structured, or flat lines.

use vstd::prelude::*;
use vstd::slice::slice_subrange;

use crate::json::{Json, JsonValue, members_view, read, read_as_json, Reading, ReadingView};
use crate::output::{capture, captured, output_view};
use crate::status::Failure;
use crate::text::{chars_of, lines_of, split_lines, texts_of, trim_bounds, trimmed};

verus! {

/// The content of a [`Response`].
pub enum ResponseView {
    Structured(Seq<(Seq<char>, JsonValue)>),
    Flat(Seq<Seq<char>>),
}

/// An answer, told apart once: the entries of a JSON object, each a record's
/// name with its fields, or the lines of a text in the layout of the
/// traditional files.
#[derive(Debug, PartialEq, Eq)]
pub enum Response {
    Structured(Vec<(String, Json)>),
    Flat(Vec<String>),
}

impl View for Response {
    type V = ResponseView;

    open spec fn view(&self) -> ResponseView {
        match self {
            Response::Structured(entries) => ResponseView::Structured(members_view(entries@)),
            Response::Flat(lines) => ResponseView::Flat(texts_of(lines@)),
        }
    }
}

/// The answer that `text` is, given what reading it as JSON gave.
///
/// Well-formed JSON has to be a document that is an object with an entry at
/// least: an empty object says that nothing was found, anything else cannot
/// be trusted. Any other text is flat, and one of fewer than four characters
/// after trimming says that nothing was found.
pub open spec fn classified(text: Seq<char>, reading: ReadingView) -> Result<
    ResponseView,
    Failure,
> {
    match reading {
        ReadingView::Document(JsonValue::Object(entries)) => if entries.len() == 0 {
            Err(Failure::NotFound)
        } else {
            Ok(ResponseView::Structured(entries))
        },
        ReadingView::Document(_) => Err(Failure::TryAgain),
        ReadingView::Unreadable => Err(Failure::TryAgain),
        ReadingView::NotJson => if trimmed(text).len() < 4 {
            Err(Failure::NotFound)
        } else {
            Ok(ResponseView::Flat(lines_of(trimmed(text))))
        },
    }
}

/// The answer that `text` is.
pub open spec fn parsed(text: Seq<char>) -> Result<ResponseView, Failure> {
    classified(text, read_as_json(text))
}

/// Tells the answer's shape from `text` and from what reading it as JSON
/// gave.
pub fn classify(text: &str, reading: Reading) -> (result: Result<Response, Failure>)
    ensures
        match result {
            Ok(response) => classified(text@, reading@) == Ok::<ResponseView, Failure>(response@),
            Err(failure) => classified(text@, reading@) == Err::<ResponseView, Failure>(failure),
        },
{
    match reading {
        Reading::Document(Json::Object(entries)) => {
            proof {
                Json::object_view(entries);
            }
            if entries.len() == 0 {
                Err(Failure::NotFound)
            } else {
                Ok(Response::Structured(entries))
            }
        },
        Reading::Document(_) => Err(Failure::TryAgain),
        Reading::Unreadable => Err(Failure::TryAgain),
        Reading::NotJson => {
            let chars = chars_of(text);
            let (start, end) = trim_bounds(chars.as_slice());
            if end - start < 4 {
                Err(Failure::NotFound)
            } else {
                Ok(Response::Flat(split_lines(slice_subrange(chars.as_slice(), start, end))))
            }
        },
    }
}

/// Tells the shape of the answer that `text` is.
pub fn parse_response(text: &str) -> (result: Result<Response, Failure>)
    ensures
        match result {
            Ok(response) => parsed(text@) == Ok::<ResponseView, Failure>(response@),
            Err(failure) => parsed(text@) == Err::<ResponseView, Failure>(failure),
        },
{
    classify(text, read(text))
}

/// The answer that a command gave by what was captured from it.
pub open spec fn answered(output: Option<Seq<u8>>) -> Result<ResponseView, Failure> {
    match captured(output) {
        Ok(text) => parsed(text),
        Err(failure) => Err(failure),
    }
}

/// Reads what was captured from a command as an answer.
pub fn answer(output: Option<&[u8]>) -> (result: Result<Response, Failure>)
    ensures
        match result {
            Ok(response) => answered(output_view(output)) == Ok::<ResponseView, Failure>(
                response@,
            ),
            Err(failure) => answered(output_view(output)) == Err::<ResponseView, Failure>(failure),
        },
{
    match capture(output) {
        Ok(text) => parse_response(text.as_str()),
        Err(failure) => Err(failure),
    }
}

/// A structured answer is never empty, and a flat one never stands for a
/// text of fewer than four characters. A document that is an empty object
/// says that nothing was found.
pub proof fn answers_are_not_empty(text: Seq<char>, reading: ReadingView)
    ensures
        classified(text, reading) matches Ok(ResponseView::Structured(entries)) ==> entries.len()
            > 0,
        classified(text, reading) matches Ok(ResponseView::Flat(lines)) ==> trimmed(text).len()
            >= 4 && lines == lines_of(trimmed(text)),
        reading == ReadingView::Document(JsonValue::Object(Seq::empty())) ==> classified(
            text,
            reading,
        ) == Err::<ResponseView, Failure>(Failure::NotFound),
{
}

} // verus!
