use libnss_shim::number::{decimal, parse_isize, parse_u32, parse_usize};

fn chars(text: &str) -> Vec<char> {
    text.chars().collect()
}

const SAMPLES: [&str; 34] = [
    "",
    "0",
    "1",
    "7",
    "10",
    "007",
    "1000",
    "+5",
    "-5",
    "+",
    "-",
    "+-5",
    "--5",
    "++5",
    " 5",
    "5 ",
    "5a",
    "a5",
    "1_000",
    "0x10",
    "1.5",
    "٣",
    "4294967295",
    "4294967296",
    "+4294967295",
    "00000000004294967295",
    "9223372036854775807",
    "9223372036854775808",
    "-9223372036854775808",
    "-9223372036854775809",
    "18446744073709551615",
    "18446744073709551616",
    "99999999999999999999999999",
    "-0",
];

#[test]
fn parse_u32_reads_what_the_standard_reader_reads() {
    for text in SAMPLES {
        assert_eq!(parse_u32(&chars(text)), text.parse::<u32>().ok(), "input {:?}", text);
    }
}

#[test]
fn parse_usize_reads_what_the_standard_reader_reads() {
    for text in SAMPLES {
        assert_eq!(parse_usize(&chars(text)), text.parse::<usize>().ok(), "input {:?}", text);
    }
}

#[test]
fn parse_isize_reads_what_the_standard_reader_reads() {
    for text in SAMPLES {
        assert_eq!(parse_isize(&chars(text)), text.parse::<isize>().ok(), "input {:?}", text);
    }
}

#[test]
fn parse_u32_exact_values() {
    assert_eq!(parse_u32(&chars("1000")), Some(1000));
    assert_eq!(parse_u32(&chars("4294967295")), Some(u32::MAX));
    assert_eq!(parse_u32(&chars("4294967296")), None);
    assert_eq!(parse_u32(&chars("")), None);
    assert_eq!(parse_u32(&chars("-1")), None);
}

#[test]
fn parse_isize_exact_values() {
    assert_eq!(parse_isize(&chars("-1")), Some(-1));
    assert_eq!(parse_isize(&chars("19000")), Some(19000));
    assert_eq!(parse_isize(&chars("-9223372036854775808")), Some(isize::MIN));
    assert_eq!(parse_isize(&chars("9223372036854775807")), Some(isize::MAX));
    assert_eq!(parse_isize(&chars("x")), None);
}

#[test]
fn decimal_writes_base_ten() {
    for n in [0u32, 1, 9, 10, 11, 99, 100, 1000, 65534, 4294967294, u32::MAX] {
        assert_eq!(decimal(n), n.to_string());
    }
}

#[test]
fn decimal_is_read_back() {
    for n in [0u32, 5, 10, 1000, 123456789, u32::MAX] {
        let text: Vec<char> = decimal(n).chars().collect();
        assert_eq!(parse_u32(&text), Some(n));
    }
}
