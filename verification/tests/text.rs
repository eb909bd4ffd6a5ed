use libnss_shim::text::{
    chars_of, count, find, is_whitespace, same_text, split_all, split_fields, split_lines, trim,
    trim_bounds,
};

fn chars(text: &str) -> Vec<char> {
    text.chars().collect()
}

#[test]
fn chars_of_keeps_every_character() {
    assert_eq!(chars_of(""), Vec::<char>::new());
    assert_eq!(chars_of("añ✓"), vec!['a', 'ñ', '✓']);
}

#[test]
fn same_text_compares_contents() {
    assert!(same_text("", ""));
    assert!(same_text("databases", "databases"));
    assert!(!same_text("databases", "database"));
    assert!(!same_text("env", "enw"));
    assert!(same_text("ñandú", "ñandú"));
    assert!(!same_text("ñandú", "nandu"));
}

#[test]
fn whitespace_is_what_unicode_defines() {
    let mut code: u32 = 0;
    while code <= 0x10ffff {
        if let Some(c) = char::from_u32(code) {
            assert_eq!(is_whitespace(c), c.is_whitespace(), "code point {:x}", code);
        }
        code += 1;
    }
}

#[test]
fn trim_removes_both_ends_only() {
    for text in [
        "",
        " ",
        "\n\t \r",
        "a",
        "  a",
        "a  ",
        "  a b  ",
        "\u{2003}x y\u{3000}\n",
        "alice:x:1000:1000::/home/alice:/bin/sh\n",
        "\u{feff}a",
    ] {
        assert_eq!(trim(text), text.trim(), "input {:?}", text);
    }
}

#[test]
fn trim_bounds_mark_the_trimmed_part() {
    assert_eq!(trim_bounds(&chars("  ab c \n")), (2, 6));
    assert_eq!(trim_bounds(&chars("")), (0, 0));
    assert_eq!(trim_bounds(&chars("   ")), (3, 3));
    assert_eq!(trim_bounds(&chars("x")), (0, 1));
}

#[test]
fn find_gives_the_first_position_or_the_length() {
    let text = chars("a:b:c");
    assert_eq!(find(&text, ':', 0), 1);
    assert_eq!(find(&text, ':', 1), 1);
    assert_eq!(find(&text, ':', 2), 3);
    assert_eq!(find(&text, ':', 4), 5);
    assert_eq!(find(&text, ':', 5), 5);
    assert_eq!(find(&text, 'z', 0), 5);
    assert_eq!(find(&text, ':', 9), 9);
}

#[test]
fn count_counts_occurrences() {
    assert_eq!(count(&chars(""), ':'), 0);
    assert_eq!(count(&chars("abc"), ':'), 0);
    assert_eq!(count(&chars(":::"), ':'), 3);
    assert_eq!(count(&chars("root:x:0:0:root:/root:/bin/bash"), ':'), 6);
}

#[test]
fn split_fields_is_a_bounded_split() {
    for text in ["", "a", "a:b", "a:b:c:d:e", ":", "::", "a::b:", "wheel:x:10:root,alice:x"] {
        for limit in 0..7usize {
            let expected: Vec<String> = text.splitn(limit, ':').map(String::from).collect();
            assert_eq!(
                split_fields(&chars(text), ':', limit),
                expected,
                "input {:?} limit {}",
                text,
                limit
            );
        }
    }
}

#[test]
fn split_all_splits_at_every_separator() {
    for text in ["", "a", "a,b", ",", ",,", "root,alice,bob", "a,,b,"] {
        let expected: Vec<String> = text.split(',').map(String::from).collect();
        assert_eq!(split_all(&chars(text), ','), expected, "input {:?}", text);
    }
}

#[test]
fn split_lines_follows_line_feeds() {
    for text in [
        "",
        "a",
        "a\n",
        "a\nb",
        "a\r\nb\r\n",
        "a\rb\nc",
        "\n",
        "\n\n",
        "a\n\nb",
        "a\r",
        "a\r\n\r\n",
        "one:x:1:\ntwo:x:2:\r\nthree:x:3:",
    ] {
        let expected: Vec<String> = text.lines().map(String::from).collect();
        assert_eq!(split_lines(&chars(text)), expected, "input {:?}", text);
    }
}
