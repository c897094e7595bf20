use errchain::args::Arguments;
use errchain::demo::demonstrate_performance;
use errchain::error::ErrorValue;
use errchain::error::Kind;
use errchain::protocol::ignore_error;
use errchain::protocol::wrap_failure;
use errchain::replace::replace;
use errchain::replace::REGEX_ERROR_ID;
use errchain::sum::sum_lines;
use errchain::table::StringTable;
use errchain::text::parse_i32;
use errchain::text::starts_with;
use errchain::text::trim;
use errchain::text::u64_string;

#[test]
fn numbers_render_in_decimal() {
    assert_eq!(u64_string(0), "0");
    assert_eq!(u64_string(7), "7");
    assert_eq!(u64_string(42), "42");
    assert_eq!(u64_string(1000), "1000");
    assert_eq!(u64_string(u64::MAX), "18446744073709551615");
}

#[test]
fn parse_accepts_signed_decimals() {
    assert_eq!(parse_i32("0", false).unwrap(), 0);
    assert_eq!(parse_i32("42", false).unwrap(), 42);
    assert_eq!(parse_i32("+17", false).unwrap(), 17);
    assert_eq!(parse_i32("-7", false).unwrap(), -7);
    assert_eq!(parse_i32("2147483647", false).unwrap(), i32::MAX);
    assert_eq!(parse_i32("-2147483648", false).unwrap(), i32::MIN);
    assert_eq!(parse_i32("007", false).unwrap(), 7);
}

#[test]
fn parse_rejects_everything_else() {
    for bad in ["", "-", "+", "abc", "12x", "1 2", " 1", "2147483648", "-2147483649"] {
        let e = parse_i32(bad, false).expect_err(bad);
        assert_eq!(e.kind(), Kind::Parse);
        assert_eq!(e.message(), "not a 32-bit decimal integer");
    }
}

#[test]
fn trim_strips_surrounding_whitespace() {
    assert_eq!(trim("  hi \n"), "hi");
    assert_eq!(trim("hi"), "hi");
    assert_eq!(trim("\t \r\n"), "");
    assert_eq!(trim(""), "");
    assert_eq!(trim(" a b "), "a b");
}

#[test]
fn starts_with_checks_prefixes() {
    assert!(starts_with("apple", "app"));
    assert!(starts_with("apple", ""));
    assert!(starts_with("apple", "apple"));
    assert!(!starts_with("apple", "apples"));
    assert!(!starts_with("apple", "b"));
}

#[test]
fn find_by_prefix_returns_first_match() {
    let mut table = StringTable { elements: Vec::new() };
    table.elements.push("apple".to_string());
    table.elements.push("banana".to_string());
    table.elements.push("orange".to_string());
    assert_eq!(table.find_by_prefix("app").unwrap(), "apple");
    assert_eq!(table.find_by_prefix("ban").unwrap(), "banana");
    assert!(table.find_by_prefix("pear").is_none());

    let ordered = StringTable { elements: vec!["ab".to_string(), "ac".to_string()] };
    assert_eq!(ordered.find_by_prefix("a").unwrap(), "ab");
}

#[test]
fn arguments_need_exactly_four_words() {
    let four = vec![
        "old".to_string(),
        "new".to_string(),
        "in.txt".to_string(),
        "out.txt".to_string(),
    ];
    let a = Arguments::parse(&four, false).unwrap();
    assert_eq!(a.target, "old");
    assert_eq!(a.replacement, "new");
    assert_eq!(a.input_filename, "in.txt");
    assert_eq!(a.output_filename, "out.txt");

    let three = vec!["a".to_string(), "b".to_string(), "c".to_string()];
    let e = Arguments::parse(&three, false).expect_err("three words");
    assert_eq!(e.kind(), Kind::Validation);
    assert_eq!(e.message(), "wrong number of arguments: expected 4, got 3");
}

#[test]
fn sum_lines_adds_trimmed_integers() {
    let lines = vec!["1".to_string(), " 2 ".to_string(), "\t3\n".to_string()];
    assert_eq!(sum_lines(&lines, false).unwrap(), 6);
    let empty: Vec<String> = Vec::new();
    assert_eq!(sum_lines(&empty, false).unwrap(), 0);
    let negatives = vec!["-5".to_string(), "2".to_string()];
    assert_eq!(sum_lines(&negatives, false).unwrap(), -3);
}

#[test]
fn sum_lines_reports_the_bad_line() {
    let lines = vec!["1".to_string(), "x".to_string()];
    let e = sum_lines(&lines, false).expect_err("second line is no number");
    assert_eq!(e.kind(), Kind::Parse);
    assert_eq!(
        e.render(),
        "parse error: invalid number (line 2, column 1)\n\
         caused by: parse error: not a 32-bit decimal integer"
    );
}

#[test]
fn sum_lines_reports_overflow() {
    let lines = vec!["2147483647".to_string(), "1".to_string()];
    let e = sum_lines(&lines, false).expect_err("sum leaves the range");
    assert_eq!(e.kind(), Kind::Validation);
    assert_eq!(e.message(), "sum does not fit in a 32-bit integer");
    let fine = vec!["2147483647".to_string(), "-1".to_string(), "1".to_string()];
    assert_eq!(sum_lines(&fine, false).unwrap(), i32::MAX);
}

#[test]
fn replace_rewrites_matches() {
    assert_eq!(replace("a", "b", "banana", false).unwrap(), "bbnbnb");
    assert_eq!(replace("an", "", "banana", false).unwrap(), "ba");
    assert_eq!(replace("z", "y", "banana", false).unwrap(), "banana");
    assert_eq!(replace("a+", "<\\->", "caaat", false).unwrap(), "c<\\->t");
}

#[test]
fn replace_reports_a_refused_pattern() {
    let e = replace("foo(", "x", "text", false).expect_err("unclosed group");
    assert_eq!(e.kind(), Kind::Parse);
    assert_eq!(e.payload_type_id(), REGEX_ERROR_ID);
    assert!(e.downcast_custom(REGEX_ERROR_ID).is_some());
    assert!(!e.message().is_empty());
}

#[test]
fn wrap_failure_touches_only_failures() {
    let ok: Result<u32, ErrorValue> = Ok(5);
    assert_eq!(
        wrap_failure(ok, Kind::Custom, "while working".to_string(), None).unwrap(),
        5
    );
    let failed: Result<u32, ErrorValue> = Err(ErrorValue::new(
        Kind::Io,
        "lost".to_string(),
        None,
        false,
    ));
    let wrapped = wrap_failure(failed, Kind::Custom, "while working".to_string(), None)
        .expect_err("failure stays a failure");
    assert_eq!(wrapped.render(), "error: while working\ncaused by: io error: lost");
}

#[test]
fn errors_can_be_discarded_only_explicitly() {
    let e = ErrorValue::new(Kind::Io, "known and accepted".to_string(), None, false);
    ignore_error(e);
}

#[test]
fn demonstrate_performance_runs() {
    demonstrate_performance();
}
