use dges_extract::characteristics::{
    parse_cnaef_area, parse_code, parse_contest, parse_degree, parse_duration,
    parse_education_type, parse_ects, ParseError,
};
use dges_extract::exams::types::Exam;
use dges_extract::text::{
    find_str, parse_uint, remove_whitespace, split_all_str, split_once_str, starts_with_str,
    str_eq, trim_str,
};

#[test]
fn code_pair_splits_at_first_slash() {
    let (institution, course) = parse_code("1100/L500").unwrap();
    assert_eq!(institution.0, "1100");
    assert_eq!(course.0, "L500");
    let (i2, c2) = parse_code("a/b/c").unwrap();
    assert_eq!(i2.0, "a");
    assert_eq!(c2.0, "b/c");
}

#[test]
fn code_pair_without_slash_is_rejected() {
    assert_eq!(parse_code("1100 L500").unwrap_err(), ParseError::MissingSeparator);
    assert_eq!(parse_code("").unwrap_err(), ParseError::MissingSeparator);
}

#[test]
fn cnaef_area_splits_at_first_space() {
    let area = parse_cnaef_area("481 Ciências Informáticas").unwrap();
    assert_eq!(area.code.unwrap().0, "481");
    assert_eq!(area.name.unwrap().0, "Ciências Informáticas");
}

#[test]
fn cnaef_area_without_space_is_rejected() {
    assert_eq!(parse_cnaef_area("481").unwrap_err(), ParseError::MissingSeparator);
}

#[test]
fn duration_round_trips_amount_and_unit() {
    let d = parse_duration("3 anos").unwrap();
    assert_eq!(d.ammount.unwrap().0, 3);
    assert_eq!(d.unit.unwrap().0, "anos");
    let d = parse_duration("255 semestres").unwrap();
    assert_eq!(d.ammount.unwrap().0, 255);
    assert_eq!(d.unit.unwrap().0, "semestres");
    let d = parse_duration("007 anos").unwrap();
    assert_eq!(d.ammount.unwrap().0, 7);
    let d = parse_duration("+6 anos").unwrap();
    assert_eq!(d.ammount.unwrap().0, 6);
}

#[test]
fn duration_with_bad_amount_is_rejected() {
    assert_eq!(parse_duration("256 anos").unwrap_err(), ParseError::BadNumber);
    assert_eq!(parse_duration("abc anos").unwrap_err(), ParseError::BadNumber);
    assert_eq!(parse_duration("+ anos").unwrap_err(), ParseError::BadNumber);
    assert_eq!(parse_duration("3anos").unwrap_err(), ParseError::MissingSeparator);
    assert_eq!(parse_duration("").unwrap_err(), ParseError::MissingSeparator);
}

#[test]
fn ects_parses_sixteen_bit_values() {
    assert_eq!(parse_ects("240").unwrap().0, 240);
    assert_eq!(parse_ects("0").unwrap().0, 0);
    assert_eq!(parse_ects("65535").unwrap().0, 65535);
}

#[test]
fn ects_rejects_bad_values() {
    assert_eq!(parse_ects("65536").unwrap_err(), ParseError::BadNumber);
    assert_eq!(parse_ects("24O").unwrap_err(), ParseError::BadNumber);
    assert_eq!(parse_ects("").unwrap_err(), ParseError::BadNumber);
    assert_eq!(parse_ects("-1").unwrap_err(), ParseError::BadNumber);
}

#[test]
fn identity_parsers_keep_the_raw_value() {
    assert_eq!(parse_degree("Licenciatura").unwrap().0, "Licenciatura");
    assert_eq!(parse_contest("Nacional").unwrap().0, "Nacional");
    assert_eq!(parse_education_type("Universitário").unwrap().0, "Universitário");
    assert_eq!(parse_degree("").unwrap().0, "");
}

#[test]
fn exam_entry_splits_at_first_space_and_trims() {
    let e = Exam::from_str("101 Matemática").unwrap();
    assert_eq!(e.code.unwrap().0, "101");
    assert_eq!(e.name.unwrap().0, "Matemática");
    let e = Exam::from_str("02 Biologia e Geologia").unwrap();
    assert_eq!(e.code.unwrap().0, "02");
    assert_eq!(e.name.unwrap().0, "Biologia e Geologia");
    let e = Exam::from_str("101  Math ").unwrap();
    assert_eq!(e.code.unwrap().0, "101");
    assert_eq!(e.name.unwrap().0, "Math");
}

#[test]
fn exam_entry_without_space_is_rejected() {
    assert!(Exam::from_str("101").is_err());
    assert!(Exam::from_str("").is_err());
}

#[test]
fn whitespace_removal_keeps_everything_else() {
    assert_eq!(remove_whitespace("21 3 456\t789"), "213456789");
    assert_eq!(remove_whitespace("  "), "");
    assert_eq!(remove_whitespace("a\u{a0}b"), "ab");
    assert_eq!(remove_whitespace("abc"), "abc");
}

#[test]
fn whitespace_removal_covers_the_unicode_class() {
    assert_eq!(remove_whitespace("\u{2009}"), "");
    assert_eq!(remove_whitespace("21\u{202f}34\u{3000}5"), "21345");
    assert_eq!(remove_whitespace("a\u{85}b\u{1680}c\u{2028}d"), "abcd");
    for c in "x\u{2000}\u{2001}\u{2002}\u{2003}\u{200a}y".chars() {
        assert_eq!(remove_whitespace(&c.to_string()), if c.is_whitespace() {
            String::new()
        } else {
            c.to_string()
        });
    }
}

#[test]
fn trimming_strips_both_ends_only() {
    assert_eq!(trim_str("  a b  "), "a b");
    assert_eq!(trim_str("\u{a0}x\u{a0}"), "x");
    assert_eq!(trim_str(""), "");
    assert_eq!(trim_str(" \t\r\n "), "");
    assert_eq!(trim_str("plain"), "plain");
    assert_eq!(trim_str("\u{202f}\u{2009}x\u{205f}"), "x");
}

#[test]
fn string_equality_is_by_characters() {
    assert!(str_eq("Código", "Código"));
    assert!(!str_eq("Código", "Codigo"));
    assert!(!str_eq("ab", "abc"));
    assert!(str_eq("", ""));
}

#[test]
fn substring_search_finds_the_first_occurrence() {
    assert_eq!(find_str("label: value: x", ": "), Some(5));
    assert_eq!(find_str("no separator", ": "), None);
    assert_eq!(find_str("ó: x", ": "), Some(1));
}

#[test]
fn splitting_once_keeps_the_remainder_whole() {
    let (label, value) = split_once_str("Código: 1100/L500", ": ").unwrap();
    assert_eq!(label, "Código");
    assert_eq!(value, "1100/L500");
    let (a, b) = split_once_str("a: b: c", ": ").unwrap();
    assert_eq!(a, "a");
    assert_eq!(b, "b: c");
    assert!(split_once_str("a b", ": ").is_none());
}

#[test]
fn splitting_all_covers_every_separator() {
    assert_eq!(split_all_str("a, b, c", ", "), vec!["a", "b", "c"]);
    assert_eq!(split_all_str("abc", ", "), vec!["abc"]);
    assert_eq!(split_all_str("", ", "), vec![""]);
    assert_eq!(split_all_str("a, ", ", "), vec!["a", ""]);
}

#[test]
fn prefix_test_matches_literally() {
    assert!(starts_with_str("Tel: 213", "Tel: "));
    assert!(!starts_with_str("Telefone 213", "Tel: "));
    assert!(!starts_with_str("Te", "Tel: "));
}

#[test]
fn bounded_integer_parsing_respects_the_bound() {
    assert_eq!(parse_uint("255", 255), Some(255));
    assert_eq!(parse_uint("256", 255), None);
    assert_eq!(parse_uint("0000000000255", 255), Some(255));
    assert_eq!(parse_uint("+42", 255), Some(42));
    assert_eq!(parse_uint("+", 255), None);
    assert_eq!(parse_uint("", 255), None);
    assert_eq!(parse_uint("4 2", 255), None);
}
