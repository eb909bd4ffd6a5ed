use libnss_shim::json::{get, read, Json, Reading};

fn parse(text: &str) -> Option<Json> {
    match read(text) {
        Reading::Document(json) => Some(json),
        _ => None,
    }
}

fn object(members: Vec<(&str, Json)>) -> Json {
    Json::Object(members.into_iter().map(|(key, value)| (key.to_string(), value)).collect())
}

#[test]
fn parse_reads_every_kind_of_value() {
    assert_eq!(parse("null"), Some(Json::Null));
    assert_eq!(parse("true"), Some(Json::Bool(true)));
    assert_eq!(parse("\"a\\nb\""), Some(Json::String("a\nb".to_string())));
    assert_eq!(
        parse("[1, \"x\", null]"),
        Some(Json::Array(vec![
            Json::Number(Some(1), Some(1)),
            Json::String("x".to_string()),
            Json::Null
        ]))
    );
    assert_eq!(
        parse("{\"alice\": {\"uid\": 1000, \"gid\": 1000}}"),
        Some(object(vec![(
            "alice",
            object(vec![
                ("gid", Json::Number(Some(1000), Some(1000))),
                ("uid", Json::Number(Some(1000), Some(1000))),
            ])
        )]))
    );
}

#[test]
fn parse_keeps_the_two_readings_of_a_number() {
    assert_eq!(parse("0"), Some(Json::Number(Some(0), Some(0))));
    assert_eq!(parse("-1"), Some(Json::Number(None, Some(-1))));
    assert_eq!(
        parse("9223372036854775807"),
        Some(Json::Number(Some(i64::MAX as u64), Some(i64::MAX)))
    );
    assert_eq!(parse("9223372036854775808"), Some(Json::Number(Some(1 << 63), None)));
    assert_eq!(parse("18446744073709551615"), Some(Json::Number(Some(u64::MAX), None)));
    assert_eq!(parse("-9223372036854775808"), Some(Json::Number(None, Some(i64::MIN))));
    assert_eq!(parse("1.5"), Some(Json::Number(None, None)));
    assert_eq!(parse("1e3"), Some(Json::Number(None, None)));
    assert_eq!(parse("18446744073709551616"), Some(Json::Number(None, None)));
}

#[test]
fn parse_walks_an_object_by_its_keys() {
    assert_eq!(
        parse("{\"b\": 1, \"a\": 2, \"c\": 3}"),
        Some(object(vec![
            ("a", Json::Number(Some(2), Some(2))),
            ("b", Json::Number(Some(1), Some(1))),
            ("c", Json::Number(Some(3), Some(3))),
        ]))
    );
    assert_eq!(
        parse("{\"a\": 1, \"a\": 2}"),
        Some(object(vec![("a", Json::Number(Some(2), Some(2)))]))
    );
}

#[test]
fn parse_rejects_what_is_not_json() {
    assert_eq!(parse(""), None);
    assert_eq!(parse("alice:x:1000:1000::/home/alice:/bin/sh"), None);
    assert_eq!(parse("{\"a\": 1"), None);
    assert_eq!(parse("{} x"), None);
    assert_eq!(parse("{'a': 1}"), None);
}

#[test]
fn read_tells_what_is_not_json() {
    for text in ["", "root:x:0:", "{\"a\": }", "1 2", "{} x", "{'a': 1}", "{\"a\": 1"] {
        assert_eq!(read(text), Reading::NotJson, "input {:?}", text);
    }
}

#[test]
fn read_gives_the_document_of_well_formed_text() {
    assert_eq!(read("{}"), Reading::Document(Json::Object(Vec::new())));
    assert_eq!(
        read(" [1, 2] "),
        Reading::Document(Json::Array(vec![Json::from_u64(1), Json::from_u64(2)]))
    );
    assert_eq!(read("12"), Reading::Document(Json::from_u64(12)));
    assert_eq!(read("\"x\""), Reading::Document(Json::String("x".to_string())));
}

#[test]
fn read_tells_well_formed_text_that_gives_no_document() {
    assert_eq!(read("1e999"), Reading::Unreadable);
    assert_eq!(read("{\"a\": -1e999}"), Reading::Unreadable);
    let deep = format!("{}{}", "[".repeat(200), "]".repeat(200));
    assert_eq!(read(&deep), Reading::Unreadable);
}

#[test]
fn constructors_of_numbers_agree_with_the_reader() {
    assert_eq!(Some(Json::from_u64(1000)), parse("1000"));
    assert_eq!(Some(Json::from_u64(u64::MAX)), parse("18446744073709551615"));
    assert_eq!(Some(Json::from_i64(-7)), parse("-7"));
    assert_eq!(Some(Json::from_i64(7)), parse("7"));
    assert_eq!(Some(Json::from_i64(0)), parse("0"));
}

#[test]
fn accessors_tell_the_kinds_apart() {
    let text = Json::String("x".to_string());
    assert_eq!(text.as_str(), Some(&"x".to_string()));
    assert_eq!(text.as_bool(), None);
    assert_eq!(text.as_u64(), None);
    assert_eq!(text.as_i64(), None);
    assert!(text.as_array().is_none());
    assert!(text.as_object().is_none());
    assert_eq!(Json::Bool(false).as_bool(), Some(false));
    assert_eq!(Json::from_u64(5).as_u64(), Some(5));
    assert_eq!(Json::from_u64(5).as_i64(), Some(5));
    assert_eq!(Json::from_i64(-5).as_u64(), None);
    assert_eq!(Json::from_i64(-5).as_i64(), Some(-5));
    assert_eq!(Json::Array(vec![Json::Null]).as_array(), Some(&vec![Json::Null]));
    assert_eq!(Json::Null.as_str(), None);
    let empty = object(vec![]);
    assert_eq!(empty.as_object(), Some(&Vec::new()));
}

#[test]
fn get_finds_the_first_member_of_that_name() {
    let members = vec![
        ("a".to_string(), Json::from_u64(1)),
        ("b".to_string(), Json::from_u64(2)),
        ("a".to_string(), Json::from_u64(3)),
    ];
    assert_eq!(get(&members, "a"), Some(&Json::from_u64(1)));
    assert_eq!(get(&members, "b"), Some(&Json::from_u64(2)));
    assert_eq!(get(&members, "c"), None);
    assert_eq!(get(&members, ""), None);
    assert_eq!(get(&members, "B"), None);
    assert_eq!(get(&Vec::new(), "a"), None);
}
