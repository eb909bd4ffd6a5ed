use libnss_shim::command::Invocation;
use libnss_shim::template::{
    occurs, replace, replace_chars, substitute, substitute_argv, substitute_env,
};

fn chars(text: &str) -> Vec<char> {
    text.chars().collect()
}

fn strings(texts: &[&str]) -> Vec<String> {
    texts.iter().map(|text| text.to_string()).collect()
}

#[test]
fn occurs_finds_the_pattern_in_place() {
    let text = chars("id <$uid> here");
    let pattern = chars("<$uid>");
    assert!(occurs(&text, &pattern, 3));
    assert!(!occurs(&text, &pattern, 2));
    assert!(!occurs(&text, &pattern, 10));
    assert!(!occurs(&text, &pattern, 14));
    assert!(occurs(&text, &chars(""), 14));
    assert!(!occurs(&text, &chars(""), 15));
    assert!(!occurs(&text, &pattern, 99));
}

#[test]
fn replace_replaces_every_occurrence() {
    for (text, pattern, value) in [
        ("<$uid>", "<$uid>", "1000"),
        ("--uid=<$uid> --again=<$uid>", "<$uid>", "1000"),
        ("no placeholder", "<$uid>", "1000"),
        ("<$uid", "<$uid>", "1000"),
        ("<$name><$name>", "<$name>", "alice"),
        ("aaa", "aa", "b"),
        ("aaaa", "aa", "a"),
        ("<$name>", "<$name>", "<$name><$name>"),
        ("<<$gid>>", "<$gid>", ""),
        ("", "<$gid>", "7"),
        ("ñ<$name>ñ", "<$name>", "é"),
    ] {
        assert_eq!(
            replace(text, &chars(pattern), &chars(value)),
            text.replace(pattern, value),
            "input {:?}",
            text
        );
    }
}

#[test]
fn replace_with_an_empty_pattern_changes_nothing() {
    assert_eq!(replace("getent group", &chars(""), &chars("x")), "getent group");
    assert_eq!(replace_chars(&chars("abc"), &chars(""), &chars("zz")), chars("abc"));
    assert_eq!(replace("", &chars(""), &chars("x")), "");
}

#[test]
fn substitute_argv_leaves_the_program() {
    let argv = strings(&["/bin/<$uid>", "--uid", "<$uid>", "x<$uid>y<$uid>"]);
    assert_eq!(
        substitute_argv(&argv, &chars("<$uid>"), &chars("1000")),
        strings(&["/bin/<$uid>", "--uid", "1000", "x1000y1000"])
    );
    assert_eq!(
        substitute_argv(&Vec::new(), &chars("<$uid>"), &chars("1000")),
        Vec::<String>::new()
    );
}

#[test]
fn substitute_env_covers_names_and_values() {
    let env = vec![
        ("USER_<$name>".to_string(), "<$name>".to_string()),
        ("HOME".to_string(), "/home/<$name>".to_string()),
    ];
    assert_eq!(
        substitute_env(&env, &chars("<$name>"), &chars("alice")),
        vec![
            ("USER_alice".to_string(), "alice".to_string()),
            ("HOME".to_string(), "/home/alice".to_string()),
        ]
    );
}

#[test]
fn substitute_keeps_program_and_directory() {
    let invocation = Invocation {
        argv: strings(&["<$gid>", "<$gid>"]),
        env: vec![("G".to_string(), "<$gid>".to_string())],
        workdir: "/srv/<$gid>".to_string(),
    };
    let result = substitute(invocation, "<$gid>", "42");
    assert_eq!(result.argv, strings(&["<$gid>", "42"]));
    assert_eq!(result.env, vec![("G".to_string(), "42".to_string())]);
    assert_eq!(result.workdir, "/srv/<$gid>");
}

#[test]
fn substitute_without_placeholder_is_the_identity() {
    let invocation = Invocation {
        argv: strings(&["getent", "group", "<$gid>"]),
        env: vec![("A".to_string(), "b".to_string())],
        workdir: String::new(),
    };
    let result = substitute(invocation, "", "");
    assert_eq!(result.argv, strings(&["getent", "group", "<$gid>"]));
    assert_eq!(result.env, vec![("A".to_string(), "b".to_string())]);
    assert_eq!(result.workdir, "");
}

#[test]
fn substitution_is_literal() {
    let invocation = Invocation {
        argv: strings(&["echo", "<$name>"]),
        env: Vec::new(),
        workdir: String::new(),
    };
    let result = substitute(invocation, "<$name>", "$(rm -rf /); `id` 'x'");
    assert_eq!(result.argv, strings(&["echo", "$(rm -rf /); `id` 'x'"]));
}
