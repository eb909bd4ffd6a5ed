use libnss_shim::command::Invocation;
use libnss_shim::config::Configuration;
use libnss_shim::lookup::{command, plan, Database, Key, Plan, Query};
use libnss_shim::status::Failure;

fn strings(texts: &[&str]) -> Vec<String> {
    texts.iter().map(|text| text.to_string()).collect()
}

const CONFIGURATION: &str = r#"{
    "debug": true,
    "databases": {
        "group": {"functions": {
            "get_all_entries": {"command": "backend group all <$gid> <$name>"},
            "get_entry_by_gid": {"command": "backend group gid <$gid> <$uid>",
                                 "env": {"GID_<$gid>": "<$gid>"}},
            "get_entry_by_name": {"command": "backend group name '<$name>'"}
        }},
        "passwd": {"functions": {
            "get_entry_by_uid": {"command": "<$uid> --uid=<$uid>", "workdir": "/home/<$uid>"},
            "get_entry_by_name": {"command": "backend passwd name <$name>"}
        }}
    }
}"#;

fn all_queries() -> Vec<Query> {
    let mut queries = Vec::new();
    for database in [Database::Group, Database::Passwd, Database::Shadow] {
        for key in [Key::All, Key::Uid(1000), Key::Gid(1000), Key::Name("alice".to_string())] {
            queries.push(Query { database, key });
        }
    }
    queries
}

#[test]
fn names_of_databases_and_functions() {
    assert_eq!(Database::Group.name(), "group");
    assert_eq!(Database::Passwd.name(), "passwd");
    assert_eq!(Database::Shadow.name(), "shadow");
    assert_eq!(Key::All.function(), "get_all_entries");
    assert_eq!(Key::Uid(1).function(), "get_entry_by_uid");
    assert_eq!(Key::Gid(1).function(), "get_entry_by_gid");
    assert_eq!(Key::Name("x".to_string()).function(), "get_entry_by_name");
}

#[test]
fn placeholders_and_their_values() {
    assert_eq!(Key::All.placeholder(), "");
    assert_eq!(Key::Uid(1).placeholder(), "<$uid>");
    assert_eq!(Key::Gid(1).placeholder(), "<$gid>");
    assert_eq!(Key::Name("x".to_string()).placeholder(), "<$name>");
    assert_eq!(Key::All.value(), "");
    assert_eq!(Key::Uid(1000).value(), "1000");
    assert_eq!(Key::Gid(0).value(), "0");
    assert_eq!(Key::Gid(u32::MAX).value(), "4294967295");
    assert_eq!(Key::Name("alice".to_string()).value(), "alice");
}

#[test]
fn plan_puts_the_id_in_the_placeholder() {
    assert_eq!(
        plan(Some(CONFIGURATION), &Query { database: Database::Group, key: Key::Gid(27) }),
        Ok(Plan {
            invocation: Invocation {
                argv: strings(&["backend", "group", "gid", "27", "<$uid>"]),
                env: vec![("GID_27".to_string(), "27".to_string())],
                workdir: String::new(),
            },
            debug: true,
        })
    );
}

#[test]
fn plan_puts_the_name_in_the_placeholder() {
    let query = Query { database: Database::Group, key: Key::Name("two words".to_string()) };
    assert_eq!(
        plan(Some(CONFIGURATION), &query).unwrap().invocation.argv,
        strings(&["backend", "group", "name", "two words"])
    );
}

#[test]
fn plan_for_all_entries_replaces_nothing() {
    let query = Query { database: Database::Group, key: Key::All };
    assert_eq!(
        plan(Some(CONFIGURATION), &query).unwrap().invocation.argv,
        strings(&["backend", "group", "all", "<$gid>", "<$name>"])
    );
}

#[test]
fn plan_never_touches_program_or_directory() {
    let query = Query { database: Database::Passwd, key: Key::Uid(7) };
    let invocation = plan(Some(CONFIGURATION), &query).unwrap().invocation;
    assert_eq!(invocation.argv, strings(&["<$uid>", "--uid=7"]));
    assert_eq!(invocation.workdir, "/home/<$uid>");
}

#[test]
fn plan_reports_what_resolution_reports() {
    assert_eq!(
        plan(Some(CONFIGURATION), &Query { database: Database::Shadow, key: Key::All }),
        Err(Failure::NotFound)
    );
    assert_eq!(
        plan(Some(CONFIGURATION), &Query { database: Database::Passwd, key: Key::All }),
        Err(Failure::Unavailable)
    );
}

#[test]
fn an_empty_configuration_is_unavailable_for_every_query() {
    for query in all_queries() {
        assert_eq!(plan(Some("{}"), &query), Err(Failure::Unavailable), "query {:?}", query);
    }
}

#[test]
fn a_missing_configuration_is_unavailable_for_every_query() {
    for query in all_queries() {
        assert_eq!(plan(None, &query), Err(Failure::Unavailable));
        assert_eq!(plan(Some("not json"), &query), Err(Failure::Unavailable));
        assert_eq!(plan(Some("[]"), &query), Err(Failure::Unavailable));
    }
}

#[test]
fn a_malformed_debug_flag_says_try_again() {
    for query in all_queries() {
        assert_eq!(
            plan(Some("{\"debug\": \"on\", \"databases\": {}}"), &query),
            Err(Failure::TryAgain)
        );
    }
}

#[test]
fn plan_is_the_same_when_asked_again() {
    for query in all_queries() {
        assert_eq!(plan(Some(CONFIGURATION), &query), plan(Some(CONFIGURATION), &query));
    }
}

#[test]
fn command_works_on_a_loaded_configuration() {
    let configuration = Configuration::load(Some(CONFIGURATION)).unwrap();
    let query = Query { database: Database::Passwd, key: Key::Name("bob".to_string()) };
    assert_eq!(
        command(&configuration, &query).unwrap().argv,
        strings(&["backend", "passwd", "name", "bob"])
    );
}
