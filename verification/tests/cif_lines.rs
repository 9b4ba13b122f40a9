use cultures_assets::cif::fields::field_of;
use cultures_assets::cif::fields::FieldName;
use cultures_assets::cif::section::parse;
use cultures_assets::cif::section::Item;
use cultures_assets::cif::text::chars_of;
use cultures_assets::cif::text::eq_ignore_case;
use cultures_assets::cif::text::parse_number;
use cultures_assets::cif::text::slice_string;
use cultures_assets::cif::value::distinct_texts;
use cultures_assets::cif::value::parse_byte;
use cultures_assets::cif::value::parse_coords;
use cultures_assets::cif::value::parse_decimal;
use cultures_assets::cif::value::parse_flag;
use cultures_assets::cif::value::parse_keyed_text;
use cultures_assets::cif::value::parse_number_value;
use cultures_assets::cif::value::parse_numbered_text;
use cultures_assets::cif::value::parse_text;
use cultures_assets::cif::value::parse_texts;
use cultures_assets::cif::value::split_string_to_ints;
use regex::Regex;

fn item(key: &str, value: &str) -> Option<Item> {
    Some(Item { key: String::from(key), value: String::from(value) })
}

fn strings(texts: &[&str]) -> Vec<String> {
    texts.iter().map(|t| String::from(*t)).collect()
}

#[test]
fn line_with_a_quoted_string() {
    assert_eq!(parse(String::from("EditName \"border\"")), item("EditName", "\"border\""));
    assert_eq!(
        parse(String::from("GfxTransition 3 \"tree trunk 01\"")),
        item("GfxTransition", "3 \"tree trunk 01\"")
    );
    assert_eq!(
        parse(String::from("EditGroups \"mountain 3x3\" \"mountain all\"")),
        item("EditGroups", "\"mountain 3x3\" \"mountain all\"")
    );
}

#[test]
fn line_with_numbers() {
    assert_eq!(parse(String::from("LogicType 0")), item("LogicType", "0"));
    assert_eq!(
        parse(String::from("GfxCoordsA 0 0 63 63 0 63")),
        item("GfxCoordsA", "0 0 63 63 0 63")
    );
    assert_eq!(parse(String::from("a1 007 \"x\" 9")), item("a1", "007 \"x\" 9"));
}

#[test]
fn line_outside_the_grammar_holds_no_item() {
    for line in [
        "",
        "EditName",
        "EditName ",
        " EditName 1",
        "EditName  1",
        "EditName 1 ",
        "EditName \"\"",
        "EditName \"open",
        "EditName open\"",
        "EditName 1.000000",
        "EditName -1",
        "Edit_Name 1",
        "EditName \"a\"\"b\"",
        "EditName 1\"b\"",
        "EditName \"a\"1",
        "EditName\t1",
        "EditName 1\n",
        "\u{e9}dit 1",
        "Edit 1 x",
        "\"a\" 1",
    ] {
        assert_eq!(parse(String::from(line)), None, "{:?}", line);
    }
}

#[test]
fn quoted_string_may_hold_anything_but_a_quote() {
    assert_eq!(
        parse(String::from("k \" 12 \u{e9}\n\t\\ \"")),
        item("k", "\" 12 \u{e9}\n\t\\ \"")
    );
}

#[test]
fn lines_agree_with_the_pattern() {
    let pattern = Regex::new("^([a-zA-Z0-9]+)((?:(?: \"[^\"]+\")|(?: [0-9]+))+)$").unwrap();
    let parts = ["", "a", "Z9", " ", "  ", "\"", "\"x\"", "\"x y\"", "\"\"", "12", "0", "1.5", "-", "\n", "\u{e9}", "_"];
    let mut lines: Vec<String> = Vec::new();
    for a in parts {
        for b in parts {
            for c in parts {
                lines.push(format!("{}{}{}", a, b, c));
                lines.push(format!("k {}{}{}", a, b, c));
                lines.push(format!("k {} {} {}", a, b, c));
            }
        }
    }
    let mut matched = 0;
    for line in lines {
        let expected = pattern.captures(&line).map(|found| Item {
            key: found.get(1).unwrap().as_str().to_string(),
            value: found.get(2).unwrap().as_str().trim().to_string(),
        });
        if expected.is_some() {
            matched += 1;
        }
        assert_eq!(parse(line.clone()), expected, "{:?}", line);
    }
    assert!(matched > 100);
}

#[test]
fn keys_name_fields_whatever_their_case() {
    assert_eq!(field_of("EditName"), Some(FieldName::EditName));
    assert_eq!(field_of("editname"), Some(FieldName::EditName));
    assert_eq!(field_of("EDITNAME"), Some(FieldName::EditName));
    assert_eq!(field_of("logicispileableonmap"), Some(FieldName::LogicIsPileableOnMap));
    assert_eq!(field_of("GfxUserFXMatrix"), Some(FieldName::GfxUserFXMatrix));
    assert_eq!(field_of("string"), Some(FieldName::String));
    assert_eq!(field_of("StringN"), Some(FieldName::StringN));
    assert_eq!(field_of("EditNam"), None);
    assert_eq!(field_of("EditNamee"), None);
    assert_eq!(field_of(""), None);
    // only the letters of ASCII are folded
    assert_eq!(field_of("LogicIsWor\u{212A}able"), None);
    assert_eq!(FieldName::GfxDrawVoidEver.as_str(), "gfxdrawvoidever");
    assert_eq!(field_of(FieldName::GfxRemapToPreshaded.as_str()), Some(FieldName::GfxRemapToPreshaded));
}

#[test]
fn case_is_folded_for_capital_letters_only() {
    assert!(eq_ignore_case(&chars_of("AbC9"), "abc9"));
    assert!(!eq_ignore_case(&chars_of("abc"), "ABC"));
    assert!(!eq_ignore_case(&chars_of("[bc"), "{bc"));
    assert!(!eq_ignore_case(&chars_of("@bc"), "`bc"));
    assert!(eq_ignore_case(&chars_of("Z"), "z"));
    assert!(!eq_ignore_case(&chars_of("ab"), "abc"));
    assert!(eq_ignore_case(&chars_of(""), ""));
    assert_eq!(chars_of("a\u{e9}\u{1F600}"), vec!['a', '\u{e9}', '\u{1F600}']);
    assert_eq!(slice_string("a\u{e9}\u{1F600}z", 1, 3), "\u{e9}\u{1F600}");
}

#[test]
fn numbers_are_decimal_and_bounded() {
    let chars = chars_of("x0255y");
    assert_eq!(parse_number(&chars, 1, 5, 255), Some(255));
    assert_eq!(parse_number(&chars, 1, 5, 254), None);
    assert_eq!(parse_number(&chars, 1, 1, 255), None);
    assert_eq!(parse_number(&chars, 0, 5, 255), None);
    assert_eq!(parse_number(&chars, 1, 6, 255), None);
    let big = chars_of("000000000000000000004294967295");
    assert_eq!(parse_number(&big, 0, big.len(), u32::MAX), Some(u32::MAX));
    let over = chars_of("4294967296");
    assert_eq!(parse_number(&over, 0, over.len(), u32::MAX), None);
    let huge = chars_of("99999999999999999999999999999999");
    assert_eq!(parse_number(&huge, 0, huge.len(), u32::MAX), None);
    assert_eq!(parse_number_value("300", 1000), Some(300));
    assert_eq!(parse_number_value("300 1", 1000), None);
    assert_eq!(parse_number_value("\"300\"", 1000), None);
}

#[test]
fn text_value_is_one_quoted_string() {
    assert_eq!(parse_text("\"border\""), Some(String::from("border")));
    assert_eq!(parse_text("  \"tree trunk 01\" "), Some(String::from("tree trunk 01")));
    assert_eq!(parse_text("\"\""), Some(String::new()));
    assert_eq!(parse_text("border"), None);
    assert_eq!(parse_text("\"a\" \"b\""), None);
    assert_eq!(parse_text("\"open"), None);
    assert_eq!(parse_text(""), None);
    assert_eq!(parse_text("1"), None);
}

#[test]
fn flags_and_bytes() {
    assert_eq!(parse_flag("0"), Some(false));
    assert_eq!(parse_flag("1"), Some(true));
    assert_eq!(parse_flag("01"), Some(true));
    assert_eq!(parse_flag("2"), None);
    assert_eq!(parse_flag("true"), None);
    assert_eq!(parse_flag(""), None);
    assert_eq!(parse_byte("0"), Some(0));
    assert_eq!(parse_byte(" 255"), Some(255));
    assert_eq!(parse_byte("256"), None);
    assert_eq!(parse_byte("-1"), None);
    assert_eq!(parse_byte("+1"), None);
    assert_eq!(parse_byte("1 2"), None);
}

#[test]
fn decimal_is_kept_as_written() {
    assert_eq!(parse_decimal("1.000000"), Some(String::from("1.000000")));
    assert_eq!(parse_decimal("0.5"), Some(String::from("0.5")));
    assert_eq!(parse_decimal("12"), Some(String::from("12")));
    for bad in ["", ".5", "1.", "1..2", "1.2.3", "1e3", "-1.0", "\"1.0\"", "1.0 2.0", "1,5"] {
        assert_eq!(parse_decimal(bad), None, "{:?}", bad);
    }
}

#[test]
fn coords_are_four_signed_bytes() {
    assert_eq!(parse_coords("0 1 2 3"), Some(((0, 1), (2, 3))));
    assert_eq!(parse_coords("-128 127 -1 -0"), Some(((-128, 127), (-1, 0))));
    assert_eq!(parse_coords("  -5   5 -5 5  "), Some(((-5, 5), (-5, 5))));
    for bad in ["", "1 2 3", "1 2 3 4 5", "128 0 0 0", "0 -129 0 0", "0 0 \"1\" 0", "0 0 - 0", "0 0 +1 0", "a b c d"] {
        assert_eq!(parse_coords(bad), None, "{:?}", bad);
    }
}

#[test]
fn lists_of_texts_and_of_bytes() {
    assert_eq!(parse_texts("\"a b\" \"c\""), Some(strings(&["a b", "c"])));
    assert_eq!(parse_texts("\"a\""), Some(strings(&["a"])));
    assert_eq!(parse_texts(""), None);
    assert_eq!(parse_texts("\"a\" 1"), None);
    assert_eq!(split_string_to_ints("64 128 127 191 64 191"), Some(vec![64, 128, 127, 191, 64, 191]));
    assert_eq!(split_string_to_ints("7"), Some(vec![7]));
    assert_eq!(split_string_to_ints(""), None);
    assert_eq!(split_string_to_ints("1 256"), None);
    assert_eq!(split_string_to_ints("1 \"2\""), None);
    assert_eq!(split_string_to_ints("1 x"), None);
}

#[test]
fn numbered_texts() {
    assert_eq!(parse_keyed_text("3 \"tree trunk 01\""), Some((3, String::from("tree trunk 01"))));
    assert_eq!(parse_keyed_text("255 \"x\""), Some((255, String::from("x"))));
    assert_eq!(parse_keyed_text("256 \"x\""), None);
    assert_eq!(parse_keyed_text("\"x\" 3"), None);
    assert_eq!(parse_keyed_text("3"), None);
    assert_eq!(parse_keyed_text("3 \"x\" \"y\""), None);
    assert_eq!(parse_numbered_text("4294967295 \"x\""), Some((u32::MAX, String::from("x"))));
    assert_eq!(parse_numbered_text("4294967296 \"x\""), None);
    assert_eq!(parse_numbered_text("1 2"), None);
}

#[test]
fn of_equal_texts_the_first_stays() {
    assert_eq!(distinct_texts(strings(&["b", "a", "b", "c", "a", "b"])), strings(&["b", "a", "c"]));
    assert_eq!(distinct_texts(Vec::new()), Vec::<String>::new());
    assert_eq!(distinct_texts(strings(&["A", "a"])), strings(&["A", "a"]));
}
