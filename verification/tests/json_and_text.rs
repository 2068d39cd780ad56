use dangler::json::Json;
use dangler::text::{
    before, blank, chars_of, contains, empty, eq_ignore_ascii_case, join, lines, number,
    parse_number, same, space, strip_prefix, trim,
};

#[test]
fn documents_are_written_with_sorted_members() {
    let j = Json::object()
        .with("b", Json::text("x\"y"))
        .with("a", Json::list().item(Json::UInt(1)).item(Json::Int(-2)).item(Json::Null))
        .with("c", Json::Bool(true));
    assert_eq!(j.to_compact(), r#"{"a":[1,-2,null],"b":"x\"y","c":true}"#);
    assert_eq!(
        Json::object().with("a", Json::list().item(Json::UInt(1))).to_pretty(),
        "{\n  \"a\": [\n    1\n  ]\n}"
    );
}

#[test]
fn documents_are_read_back() {
    let text = r#"{"a":[0,18446744073709551615,-9223372036854775808,1.5],"b":{"c":null},"d":"é"}"#;
    let j = Json::parse(text).unwrap();
    assert_eq!(j.to_compact(), text);
    assert_eq!(j.copy().to_compact(), text);
    assert!(matches!(j.get("b").and_then(|b| b.get("c")), Some(Json::Null)));
    assert!(j.get("x").is_none());
    assert!(Json::Null.get("a").is_none());
    match j.get("a") {
        Some(Json::Array(items)) => {
            assert!(matches!(items[0], Json::UInt(0)));
            assert!(matches!(items[1], Json::UInt(u64::MAX)));
            assert!(matches!(items[2], Json::Int(i64::MIN)));
            assert!(matches!(&items[3], Json::Float(t) if t == "1.5"));
        }
        other => panic!("{other:?}"),
    }
}

#[test]
fn what_is_no_document_is_an_error() {
    assert_eq!(Json::parse("").unwrap_err(), "EOF while parsing a value at line 1 column 0");
    assert_eq!(Json::parse("[1] x").unwrap_err(), "trailing characters at line 1 column 5");
}

#[test]
fn members_that_are_not_set_are_left_out() {
    let j = Json::object()
        .with_text("a", &None)
        .with_text("b", &Some("t".to_string()))
        .with_number("c", None)
        .with_number("d", Some(600));
    assert_eq!(j.to_compact(), r#"{"b":"t","d":600}"#);
    assert_eq!(
        Json::texts(&vec!["x".to_string(), "y".to_string()]).to_compact(),
        r#"["x","y"]"#
    );
}

#[test]
fn white_space_is_trimmed_at_both_ends() {
    assert_eq!(trim(" \t a b\u{3000}\n"), "a b");
    assert_eq!(trim(" \u{a0}"), "");
    assert_eq!(trim("x"), "x");
    assert!(blank(" \u{2028}\t"));
    assert!(blank(""));
    assert!(!blank(" x "));
    assert!(space('\u{85}'));
    assert!(!space('\u{200b}'));
    assert!(empty(""));
    assert!(!empty(" "));
}

#[test]
fn white_space_is_what_the_standard_library_says() {
    for n in 0..0x11_0000u32 {
        if let Some(c) = char::from_u32(n) {
            assert_eq!(space(c), c.is_whitespace(), "{n:x}");
        }
    }
}

#[test]
fn lines_end_at_line_feeds() {
    for text in ["", "a", "a\n", "a\nb", "a\r\nb\r", "\n\n", "a\r\r\nb\n\nc", "\r\n"] {
        let want: Vec<&str> = text.lines().collect();
        assert_eq!(lines(text), want, "{text:?}");
    }
}

#[test]
fn numbers_are_decimal() {
    assert_eq!(number(0), "0");
    assert_eq!(number(u64::MAX), "18446744073709551615");
    for text in ["0", "007", "+5", "18446744073709551615", "18446744073709551616", "", "+", "-1", "1 ", "é"] {
        assert_eq!(parse_number(text), text.parse::<u64>().ok(), "{text:?}");
    }
}

#[test]
fn texts_are_searched_compared_and_joined() {
    assert!(contains("abc", "bc"));
    assert!(contains("abc", ""));
    assert!(!contains("abc", "cb"));
    assert_eq!(strip_prefix("KEY=abc", "KEY="), Some("abc"));
    assert_eq!(strip_prefix("KEYabc", "KEY="), None);
    assert!(same("é", "é"));
    assert!(!same("a", "A"));
    assert!(eq_ignore_ascii_case("GeT", "get"));
    assert!(!eq_ignore_ascii_case("É", "é"));
    assert!(before("a", "b"));
    assert!(before("a", "ab"));
    assert!(before("z", "é"));
    assert!(!before("a", "a"));
    assert_eq!(join(&vec!["a".to_string(), "".to_string(), "b".to_string()], ", "), "a, , b");
    assert_eq!(join(&Vec::new(), ", "), "");
    assert_eq!(chars_of("hé"), vec!['h', 'é']);
}
