use libnss_shim::command::Invocation;
use libnss_shim::config::Configuration;
use libnss_shim::json::{Json, Reading};
use libnss_shim::resolve::{assemble, read_env, resolve};
use libnss_shim::status::Failure;

fn strings(texts: &[&str]) -> Vec<String> {
    texts.iter().map(|text| text.to_string()).collect()
}

fn pairs(variables: &[(&str, &str)]) -> Vec<(String, String)> {
    variables.iter().map(|(name, value)| (name.to_string(), value.to_string())).collect()
}

fn configuration(text: &str) -> Configuration {
    Configuration::load(Some(text)).unwrap()
}

fn resolved(text: &str, database: &str, function: &str) -> Result<Invocation, Failure> {
    resolve(&configuration(text), database, function)
}

const LAYERED: &str = r#"{
    "env": {"LEVEL": "global", "ONLY_GLOBAL": "1"},
    "workdir": "/global",
    "databases": {
        "group": {
            "env": {"LEVEL": "database", "ONLY_DATABASE": "1"},
            "workdir": "/database",
            "functions": {
                "get_all_entries": {
                    "command": "getent group",
                    "env": {"LEVEL": "function"},
                    "workdir": "/function"
                },
                "get_entry_by_gid": {"command": "getent group <$gid>"},
                "get_entry_by_name": {"command": "getent group <$name>", "env": {}, "workdir": ""}
            }
        },
        "passwd": {
            "functions": {
                "get_all_entries": {"command": "getent passwd"},
                "get_entry_by_uid": {"command": "getent passwd <$uid>", "workdir": "/only/dir"}
            }
        }
    }
}"#;

#[test]
fn resolve_gives_command_environment_and_directory() {
    assert_eq!(
        resolved(LAYERED, "group", "get_all_entries"),
        Ok(Invocation {
            argv: strings(&["getent", "group"]),
            env: pairs(&[("LEVEL", "function")]),
            workdir: "/function".to_string(),
        })
    );
}

#[test]
fn function_level_wins_without_merging() {
    let invocation = resolved(LAYERED, "group", "get_all_entries").unwrap();
    assert_eq!(invocation.env, pairs(&[("LEVEL", "function")]));
    assert_eq!(invocation.workdir, "/function");
}

#[test]
fn database_level_comes_second() {
    assert_eq!(
        resolved(LAYERED, "group", "get_entry_by_gid"),
        Ok(Invocation {
            argv: strings(&["getent", "group", "<$gid>"]),
            env: pairs(&[("LEVEL", "database"), ("ONLY_DATABASE", "1")]),
            workdir: "/database".to_string(),
        })
    );
}

#[test]
fn global_level_comes_last() {
    assert_eq!(
        resolved(LAYERED, "passwd", "get_all_entries"),
        Ok(Invocation {
            argv: strings(&["getent", "passwd"]),
            env: pairs(&[("LEVEL", "global"), ("ONLY_GLOBAL", "1")]),
            workdir: "/global".to_string(),
        })
    );
}

#[test]
fn environment_and_directory_are_chosen_apart() {
    let invocation = resolved(LAYERED, "passwd", "get_entry_by_uid").unwrap();
    assert_eq!(invocation.env, pairs(&[("LEVEL", "global"), ("ONLY_GLOBAL", "1")]));
    assert_eq!(invocation.workdir, "/only/dir");
}

#[test]
fn a_level_that_sets_an_empty_value_still_wins() {
    let invocation = resolved(LAYERED, "group", "get_entry_by_name").unwrap();
    assert_eq!(invocation.env, Vec::new());
    assert_eq!(invocation.workdir, "");
}

#[test]
fn nothing_set_gives_no_environment_and_no_directory() {
    assert_eq!(
        resolved(
            r#"{"databases": {"shadow": {"functions": {"get_all_entries": {"command": "cat /etc/shadow"}}}}}"#,
            "shadow",
            "get_all_entries"
        ),
        Ok(Invocation {
            argv: strings(&["cat", "/etc/shadow"]),
            env: Vec::new(),
            workdir: String::new(),
        })
    );
}

#[test]
fn resolve_is_repeatable() {
    let configuration = configuration(LAYERED);
    let first = resolve(&configuration, "group", "get_entry_by_gid");
    let second = resolve(&configuration, "group", "get_entry_by_gid");
    assert_eq!(first, second);
    assert_eq!(first, resolved(LAYERED, "group", "get_entry_by_gid"));
}

#[test]
fn a_database_that_is_not_configured_is_not_found() {
    assert_eq!(resolved(LAYERED, "shadow", "get_all_entries"), Err(Failure::NotFound));
    assert_eq!(
        resolved(r#"{"databases": {}}"#, "group", "get_all_entries"),
        Err(Failure::NotFound)
    );
}

#[test]
fn a_database_without_functions_is_unavailable() {
    assert_eq!(
        resolved(r#"{"databases": {"group": {}}}"#, "group", "get_all_entries"),
        Err(Failure::Unavailable)
    );
    assert_eq!(
        resolved(r#"{"databases": {"group": {"functions": 1}}}"#, "group", "get_all_entries"),
        Err(Failure::Unavailable)
    );
}

#[test]
fn a_function_that_is_not_there_is_unavailable() {
    assert_eq!(resolved(LAYERED, "passwd", "get_entry_by_name"), Err(Failure::Unavailable));
    assert_eq!(
        resolved(r#"{"databases": {"group": {"functions": {}}}}"#, "group", "get_all_entries"),
        Err(Failure::Unavailable)
    );
}

#[test]
fn a_function_without_command_is_unavailable() {
    assert_eq!(
        resolved(
            r#"{"databases": {"group": {"functions": {"get_all_entries": {}}}}}"#,
            "group",
            "get_all_entries"
        ),
        Err(Failure::Unavailable)
    );
    assert_eq!(
        resolved(
            r#"{"databases": {"group": {"functions": {"get_all_entries": {"command": 5}}}}}"#,
            "group",
            "get_all_entries"
        ),
        Err(Failure::Unavailable)
    );
    assert_eq!(
        resolved(
            r#"{"databases": {"group": {"functions": {"get_all_entries": "getent group"}}}}"#,
            "group",
            "get_all_entries"
        ),
        Err(Failure::Unavailable)
    );
}

#[test]
fn levels_that_are_no_objects_are_unavailable() {
    assert_eq!(
        resolved(r#"{"databases": []}"#, "group", "get_all_entries"),
        Err(Failure::Unavailable)
    );
    assert_eq!(
        resolved(r#"{"databases": {"group": "x"}}"#, "group", "get_all_entries"),
        Err(Failure::Unavailable)
    );
}

fn with_command(command: &str) -> Result<Invocation, Failure> {
    let document = Json::Object(vec![(
        "databases".to_string(),
        Json::Object(vec![(
            "group".to_string(),
            Json::Object(vec![(
                "functions".to_string(),
                Json::Object(vec![(
                    "get_all_entries".to_string(),
                    Json::Object(vec![(
                        "command".to_string(),
                        Json::String(command.to_string()),
                    )]),
                )]),
            )]),
        )]),
    )]);
    resolve(
        &Configuration::from_reading(Reading::Document(document)).unwrap(),
        "group",
        "get_all_entries",
    )
}

#[test]
fn commands_are_split_like_a_shell_does() {
    assert_eq!(
        with_command("/usr/bin/lookup --name 'two words' \"a b\" c\\ d  e").unwrap().argv,
        strings(&["/usr/bin/lookup", "--name", "two words", "a b", "c d", "e"])
    );
    assert_eq!(with_command("one").unwrap().argv, strings(&["one"]));
    assert_eq!(with_command("a ''").unwrap().argv, strings(&["a", ""]));
}

#[test]
fn commands_that_cannot_be_split_are_unavailable() {
    assert_eq!(with_command("echo 'open"), Err(Failure::Unavailable));
    assert_eq!(with_command("echo \"open"), Err(Failure::Unavailable));
    assert_eq!(with_command("echo \\"), Err(Failure::Unavailable));
}

#[test]
fn commands_without_words_are_unavailable() {
    assert_eq!(with_command(""), Err(Failure::Unavailable));
    assert_eq!(with_command("   \t "), Err(Failure::Unavailable));
    assert_eq!(with_command("# only a comment"), Err(Failure::Unavailable));
}

#[test]
fn an_environment_of_the_wrong_shape_is_unavailable() {
    for env in ["[]", "\"A=b\"", "{\"A\": 1}", "{\"A\": \"b\", \"C\": null}", "null"] {
        let text = format!(
            "{{\"databases\": {{\"group\": {{\"functions\": {{\"get_all_entries\": \
             {{\"command\": \"x\", \"env\": {}}}}}}}}}}}",
            env
        );
        assert_eq!(
            resolved(&text, "group", "get_all_entries"),
            Err(Failure::Unavailable),
            "env {}",
            env
        );
    }
}

#[test]
fn a_directory_of_the_wrong_shape_is_unavailable() {
    for workdir in ["1", "[]", "{}", "null", "true"] {
        let text = format!(
            "{{\"workdir\": {}, \"databases\": {{\"group\": {{\"functions\": \
             {{\"get_all_entries\": {{\"command\": \"x\"}}}}}}}}}}",
            workdir
        );
        assert_eq!(
            resolved(&text, "group", "get_all_entries"),
            Err(Failure::Unavailable),
            "workdir {}",
            workdir
        );
    }
}

#[test]
fn only_the_level_that_is_chosen_is_looked_at() {
    let text = r#"{
        "env": 5,
        "workdir": 5,
        "databases": {"group": {"env": [], "workdir": [], "functions": {"get_all_entries":
            {"command": "x", "env": {"A": "b"}, "workdir": "/w"}}}}
    }"#;
    assert_eq!(
        resolved(text, "group", "get_all_entries"),
        Ok(Invocation {
            argv: strings(&["x"]),
            env: pairs(&[("A", "b")]),
            workdir: "/w".to_string(),
        })
    );
}

#[test]
fn read_env_takes_objects_of_strings() {
    assert_eq!(
        read_env(&Json::Object(vec![
            ("A".to_string(), Json::String("1".to_string())),
            ("B".to_string(), Json::String(String::new())),
        ])),
        Some(pairs(&[("A", "1"), ("B", "")]))
    );
    assert_eq!(read_env(&Json::Object(Vec::new())), Some(Vec::new()));
    assert_eq!(read_env(&Json::Object(vec![("A".to_string(), Json::from_u64(1))])), None);
    assert_eq!(read_env(&Json::Array(Vec::new())), None);
    assert_eq!(read_env(&Json::String("A=1".to_string())), None);
}

#[test]
fn assemble_needs_a_word() {
    assert_eq!(
        assemble(Some(strings(&["a", "b"])), pairs(&[("K", "v")]), "/d".to_string()),
        Ok(Invocation {
            argv: strings(&["a", "b"]),
            env: pairs(&[("K", "v")]),
            workdir: "/d".to_string(),
        })
    );
    assert_eq!(assemble(Some(Vec::new()), Vec::new(), String::new()), Err(Failure::Unavailable));
    assert_eq!(assemble(None, Vec::new(), String::new()), Err(Failure::Unavailable));
}

#[test]
fn program_is_the_first_word() {
    let invocation = with_command("prog arg").unwrap();
    assert_eq!(invocation.program(), Some(&"prog".to_string()));
    let empty = Invocation { argv: Vec::new(), env: Vec::new(), workdir: String::new() };
    assert_eq!(empty.program(), None);
}
