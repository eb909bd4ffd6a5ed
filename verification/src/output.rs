//! What a command printed, as text.

use vstd::prelude::*;
use vstd::string::*;
use vstd::utf8::*;

use crate::status::Failure;
use crate::text::{trim, trimmed};

verus! {

/// `std::str::from_utf8`: the bytes as text where they are valid UTF-8, the
/// text being what these bytes encode, and `None` where they are not.
#[verifier::external_body]
fn text_of_bytes(bytes: &[u8]) -> (text: Option<&str>)
    ensures
        match text {
            Some(s) => valid_utf8(bytes@) && s.spec_bytes() == bytes@,
            None => !valid_utf8(bytes@),
        },
{
    std::str::from_utf8(bytes).ok()
}

/// The text captured from a command: what it printed, decoded and trimmed.
/// `None` stands for a command that could not be started or whose output
/// could not be had; output that is not UTF-8 is no text.
pub open spec fn captured(output: Option<Seq<u8>>) -> Result<Seq<char>, Failure> {
    match output {
        None => Err(Failure::TryAgain),
        Some(bytes) => if valid_utf8(bytes) {
            Ok(trimmed(decode_utf8(bytes)))
        } else {
            Err(Failure::TryAgain)
        },
    }
}

/// The bytes that may have been captured.
pub open spec fn output_view(output: Option<&[u8]>) -> Option<Seq<u8>> {
    match output {
        Some(bytes) => Some(bytes@),
        None => None,
    }
}

/// Turns what was captured from a command into trimmed text. How the command
/// ended plays no part.
pub fn capture(output: Option<&[u8]>) -> (result: Result<String, Failure>)
    ensures
        match result {
            Ok(text) => captured(output_view(output)) == Ok::<Seq<char>, Failure>(text@),
            Err(failure) => captured(output_view(output)) == Err::<Seq<char>, Failure>(failure),
        },
{
    match output {
        None => Err(Failure::TryAgain),
        Some(bytes) => match text_of_bytes(bytes) {
            None => Err(Failure::TryAgain),
            Some(text) => {
                proof {
                    encode_utf8_decode_utf8(text@);
                }
                Ok(trim(text))
            },
        },
    }
}

} // verus!
