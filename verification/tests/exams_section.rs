use dges_extract::exams::exams_section;
use dges_extract::exams::types::{Exam, ExamGroup};
use dges_extract::token::Token;
use dges_extract::utils::non_empty_vector::NonEmptyVector;

const AND_MARKER: &str = "\u{a0}\u{a0}\u{a0}\u{a0}\u{a0}\u{a0}e";
const OR_MARKER: &str = "\u{a0}\u{a0}\u{a0}\u{a0}\u{a0}\u{a0}ou";

fn txt(s: &str) -> Token {
    Token::Text(s.to_string())
}

fn group_codes(group: &ExamGroup) -> Vec<String> {
    let mut out = Vec::new();
    for i in 0..group.len() {
        out.push(group.get(i).code.as_ref().unwrap().0.clone());
    }
    out
}

fn exam_pair(e: &Exam) -> (String, String) {
    (
        e.code.as_ref().unwrap().0.clone(),
        e.name.as_ref().unwrap().0.clone(),
    )
}

#[test]
fn single_choice_or_marker_yields_two_alternatives() {
    let toks = vec![
        txt("Uma das seguintes provas:"),
        Token::Markup,
        txt("101 Math"),
        Token::Markup,
        txt(OR_MARKER),
        Token::Markup,
        txt("102 Physics"),
        Token::Markup,
    ];
    let exams = exams_section(&toks);
    assert!(exams.mandatory.is_none());
    let optional = exams.optional.expect("choice structure expected");
    assert_eq!(optional.len(), 1);
    let clause: &NonEmptyVector<ExamGroup> = optional.get(0);
    assert_eq!(clause.len(), 2);
    assert_eq!(clause.get(0).len(), 1);
    assert_eq!(exam_pair(clause.get(0).get(0)), ("101".to_string(), "Math".to_string()));
    assert_eq!(clause.get(1).len(), 1);
    assert_eq!(exam_pair(clause.get(1).get(0)), ("102".to_string(), "Physics".to_string()));
}

#[test]
fn group_choice_and_marker_yields_two_clauses() {
    let toks = vec![
        txt("Um dos seguintes conjuntos:"),
        Token::Markup,
        txt("101 Math"),
        Token::Markup,
        txt("102 Physics"),
        Token::Markup,
        txt(AND_MARKER),
        Token::Markup,
        txt("103 Chemistry"),
        Token::Markup,
    ];
    let exams = exams_section(&toks);
    assert!(exams.mandatory.is_none());
    let optional = exams.optional.expect("choice structure expected");
    assert_eq!(optional.len(), 2);
    let clause1 = optional.get(0);
    assert_eq!(clause1.len(), 1);
    assert_eq!(group_codes(clause1.get(0)), vec!["101", "102"]);
    assert_eq!(exam_pair(clause1.get(0).get(1)), ("102".to_string(), "Physics".to_string()));
    let clause2 = optional.get(1);
    assert_eq!(clause2.len(), 1);
    assert_eq!(group_codes(clause2.get(0)), vec!["103"]);
    assert_eq!(exam_pair(clause2.get(0).get(0)), ("103".to_string(), "Chemistry".to_string()));
}

#[test]
fn unheaded_section_yields_flat_mandatory_list() {
    let toks = vec![
        txt("101 Math"),
        Token::Markup,
        txt("102 Physics"),
        Token::Markup,
    ];
    let exams = exams_section(&toks);
    assert!(exams.optional.is_none());
    let mandatory = exams.mandatory.expect("mandatory list expected");
    assert_eq!(mandatory.len(), 2);
    assert_eq!(exam_pair(mandatory.get(0)), ("101".to_string(), "Math".to_string()));
    assert_eq!(exam_pair(mandatory.get(1)), ("102".to_string(), "Physics".to_string()));
}

#[test]
fn unparsable_entries_are_skipped() {
    let toks = vec![
        txt("101 Math"),
        Token::Markup,
        txt("Matemática"),
        Token::Markup,
        txt("102 Physics"),
        Token::Markup,
    ];
    let exams = exams_section(&toks);
    let mandatory = exams.mandatory.expect("mandatory list expected");
    assert_eq!(mandatory.len(), 2);
    assert_eq!(exam_pair(mandatory.get(0)).0, "101");
    assert_eq!(exam_pair(mandatory.get(1)).0, "102");
}

#[test]
fn empty_section_yields_nothing() {
    let exams = exams_section(&Vec::new());
    assert!(exams.optional.is_none());
    assert!(exams.mandatory.is_none());
}

#[test]
fn header_alone_yields_nothing() {
    let toks = vec![txt("Uma das seguintes provas:"), Token::Markup];
    let exams = exams_section(&toks);
    assert!(exams.optional.is_none());
    assert!(exams.mandatory.is_none());
}

#[test]
fn markers_before_any_exam_are_ignored() {
    let toks = vec![
        txt("Uma das seguintes provas:"),
        Token::Markup,
        txt(AND_MARKER),
        Token::Markup,
        txt(OR_MARKER),
        Token::Markup,
        txt("101 Math"),
        Token::Markup,
    ];
    let exams = exams_section(&toks);
    let optional = exams.optional.expect("choice structure expected");
    assert_eq!(optional.len(), 1);
    assert_eq!(optional.get(0).len(), 1);
    assert_eq!(group_codes(optional.get(0).get(0)), vec!["101"]);
}

#[test]
fn trailing_or_marker_leaves_an_empty_alternative() {
    let toks = vec![
        txt("Uma das seguintes provas:"),
        Token::Markup,
        txt("101 Math"),
        Token::Markup,
        txt(OR_MARKER),
        Token::Markup,
    ];
    let exams = exams_section(&toks);
    let optional = exams.optional.expect("choice structure expected");
    let clause = optional.get(0);
    assert_eq!(clause.len(), 2);
    assert_eq!(clause.get(0).len(), 1);
    assert_eq!(clause.get(1).len(), 0);
}

#[test]
fn scan_stops_at_first_non_text_position() {
    let toks = vec![
        txt("101 Math"),
        Token::Markup,
        Token::Markup,
        txt("102 Physics"),
        Token::Markup,
    ];
    let exams = exams_section(&toks);
    let mandatory = exams.mandatory.expect("mandatory list expected");
    assert_eq!(mandatory.len(), 1);
}

#[test]
fn extraction_is_idempotent_over_stream_copies() {
    let make = || {
        vec![
            txt("Um dos seguintes conjuntos:"),
            Token::Markup,
            txt("101 Math"),
            Token::Markup,
            txt(OR_MARKER),
            Token::Markup,
            txt("102 Physics"),
            Token::Markup,
            txt("103 Chemistry"),
            Token::Markup,
        ]
    };
    let first = exams_section(&make());
    let second = exams_section(&make());
    assert_eq!(first, second);
}
