use libnss_shim::json::{Json, Reading};
use libnss_shim::output::capture;
use libnss_shim::response::{answer, classify, parse_response, Response};
use libnss_shim::status::{Failure, Outcome};

fn strings(texts: &[&str]) -> Vec<String> {
    texts.iter().map(|text| text.to_string()).collect()
}

#[test]
fn capture_decodes_and_trims() {
    assert_eq!(capture(Some(b"  alice:x:1000:1000\n")), Ok("alice:x:1000:1000".to_string()));
    assert_eq!(capture(Some(b"")), Ok(String::new()));
    assert_eq!(capture(Some("\n ñandú \t".as_bytes())), Ok("ñandú".to_string()));
}

#[test]
fn capture_without_output_says_try_again() {
    assert_eq!(capture(None), Err(Failure::TryAgain));
}

#[test]
fn capture_of_invalid_text_says_try_again() {
    assert_eq!(capture(Some(&[0x61, 0xff, 0x62])), Err(Failure::TryAgain));
    assert_eq!(capture(Some(&[0xc3])), Err(Failure::TryAgain));
    assert_eq!(capture(Some(&[0xed, 0xa0, 0x80])), Err(Failure::TryAgain));
}

#[test]
fn structured_answers_keep_their_entries() {
    assert_eq!(
        parse_response("{\"bob\": {\"uid\": 2}, \"alice\": {\"uid\": 1}}"),
        Ok(Response::Structured(vec![
            (
                "alice".to_string(),
                Json::Object(vec![("uid".to_string(), Json::from_u64(1))])
            ),
            ("bob".to_string(), Json::Object(vec![("uid".to_string(), Json::from_u64(2))])),
        ]))
    );
}

#[test]
fn an_empty_object_says_not_found() {
    assert_eq!(parse_response("{}"), Err(Failure::NotFound));
    assert_eq!(parse_response(" { } "), Err(Failure::NotFound));
}

#[test]
fn json_that_is_no_object_says_try_again() {
    for text in ["[]", "[{\"alice\": {}}]", "null", "true", "12", "1000", "\"alice\""] {
        assert_eq!(parse_response(text), Err(Failure::TryAgain), "input {:?}", text);
    }
}

#[test]
fn short_flat_text_says_not_found() {
    for text in ["", "a", "a:b", "   x  ", "\n\n", "ab:", "ñ:é"] {
        assert_eq!(parse_response(text), Err(Failure::NotFound), "input {:?}", text);
    }
}

#[test]
fn flat_text_of_four_characters_is_an_answer() {
    assert_eq!(parse_response("a:b:"), Ok(Response::Flat(strings(&["a:b:"]))));
    assert_eq!(parse_response(" a:b: "), Ok(Response::Flat(strings(&["a:b:"]))));
}

#[test]
fn flat_answers_keep_their_lines() {
    assert_eq!(
        parse_response("root:x:0:\r\nwheel:x:10:root\n\n  staff:x:20:  \n"),
        Ok(Response::Flat(strings(&["root:x:0:", "wheel:x:10:root", "", "  staff:x:20:"])))
    );
}

#[test]
fn classify_goes_by_what_was_read() {
    assert_eq!(classify("{}", Reading::Unreadable), Err(Failure::TryAgain));
    assert_eq!(
        classify("{}", Reading::Document(Json::Object(Vec::new()))),
        Err(Failure::NotFound)
    );
    assert_eq!(
        classify("[]", Reading::Document(Json::Array(Vec::new()))),
        Err(Failure::TryAgain)
    );
    assert_eq!(classify("null", Reading::Document(Json::Null)), Err(Failure::TryAgain));
    assert_eq!(
        classify(
            "ignored",
            Reading::Document(Json::Object(vec![("k".to_string(), Json::Null)]))
        ),
        Ok(Response::Structured(vec![("k".to_string(), Json::Null)]))
    );
    assert_eq!(classify("a:b:c:d", Reading::NotJson), Ok(Response::Flat(strings(&["a:b:c:d"]))));
    assert_eq!(classify("abc", Reading::NotJson), Err(Failure::NotFound));
    assert_eq!(classify("{}", Reading::NotJson), Err(Failure::NotFound));
}

#[test]
fn well_formed_text_without_document_says_try_again() {
    assert_eq!(parse_response("{\"alice\": {\"uid\": 1e999}}"), Err(Failure::TryAgain));
}

#[test]
fn answer_joins_capture_and_parsing() {
    assert_eq!(answer(None), Err(Failure::TryAgain));
    assert_eq!(answer(Some(&[0xff, 0xfe])), Err(Failure::TryAgain));
    assert_eq!(answer(Some(b"  {}  ")), Err(Failure::NotFound));
    assert_eq!(answer(Some(b"\n")), Err(Failure::NotFound));
    assert_eq!(answer(Some(b" g:x:1:\n")), Ok(Response::Flat(strings(&["g:x:1:"]))));
    assert_eq!(
        answer(Some(b"\n{\"g\": 1}\n")),
        Ok(Response::Structured(vec![("g".to_string(), Json::from_u64(1))]))
    );
}

#[test]
fn outcomes_stand_for_results() {
    assert_eq!(Outcome::from_result(Ok(5)), Outcome::Success(5));
    assert_eq!(Outcome::<u8>::from_result(Err(Failure::NotFound)), Outcome::NotFound);
    assert_eq!(Outcome::<u8>::from_result(Err(Failure::TryAgain)), Outcome::TryAgain);
    assert_eq!(Outcome::<u8>::from_result(Err(Failure::Unavailable)), Outcome::Unavailable);
    assert_eq!(Outcome::Success(1).failure(), None);
    assert_eq!(Outcome::<u8>::NotFound.failure(), Some(Failure::NotFound));
    assert_eq!(Outcome::<u8>::TryAgain.failure(), Some(Failure::TryAgain));
    assert_eq!(Outcome::<u8>::Unavailable.failure(), Some(Failure::Unavailable));
    assert!(Outcome::Success(1).is_success());
    assert!(!Outcome::<u8>::NotFound.is_success());
}
