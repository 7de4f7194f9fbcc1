use dges_extract::characteristics::{characteristics_section, Characteristics};
use dges_extract::characteristics::institution::{Address, Institution, PhoneNumberList};
use dges_extract::token::Token;

fn entry(s: &str) -> Token {
    Token::Text(s.to_string())
}

#[test]
fn known_labels_fill_their_fields_and_unknown_ones_are_recorded() {
    let toks = vec![
        entry("Código: 1100/L500"),
        Token::Markup,
        entry("Grau: Licenciatura"),
        Token::Markup,
        entry("ECTS: 240"),
        Token::Markup,
        entry("Foo: bar"),
        Token::Markup,
    ];
    let (record, unknown) = characteristics_section(&toks);
    assert_eq!(record.institution.code.unwrap().0, "1100");
    assert_eq!(record.course.code.unwrap().0, "L500");
    assert_eq!(record.degree.unwrap().0, "Licenciatura");
    assert_eq!(record.ects.unwrap().0, 240);
    assert!(record.duration.ammount.is_none());
    assert!(record.duration.unit.is_none());
    assert!(record.education_type.is_none());
    assert!(record.contest.is_none());
    assert!(record.cnaef_area.code.is_none());
    assert_eq!(unknown, vec!["Foo".to_string()]);
}

#[test]
fn every_known_label_is_dispatched() {
    let toks = vec![
        entry("Código: 0300/9011"),
        Token::Markup,
        entry("Grau: Mestrado Integrado"),
        Token::Markup,
        entry("Área CNAEF: 481 Ciências Informáticas"),
        Token::Markup,
        entry("Duração: 5 anos"),
        Token::Markup,
        entry("ECTS: 300"),
        Token::Markup,
        entry("Tipo de Ensino: Universitário"),
        Token::Markup,
        entry("Concurso: Nacional"),
        Token::Markup,
    ];
    let (record, unknown) = characteristics_section(&toks);
    assert_eq!(record.institution.code.unwrap().0, "0300");
    assert_eq!(record.course.code.unwrap().0, "9011");
    assert_eq!(record.degree.unwrap().0, "Mestrado Integrado");
    assert_eq!(record.cnaef_area.code.unwrap().0, "481");
    assert_eq!(record.cnaef_area.name.unwrap().0, "Ciências Informáticas");
    assert_eq!(record.duration.ammount.unwrap().0, 5);
    assert_eq!(record.duration.unit.unwrap().0, "anos");
    assert_eq!(record.ects.unwrap().0, 300);
    assert_eq!(record.education_type.unwrap().0, "Universitário");
    assert_eq!(record.contest.unwrap().0, "Nacional");
    assert!(unknown.is_empty());
}

#[test]
fn a_bad_value_drops_only_its_own_field() {
    let toks = vec![
        entry("Código: noslash"),
        Token::Markup,
        entry("Duração: 999 anos"),
        Token::Markup,
        entry("Grau: Licenciatura"),
        Token::Markup,
    ];
    let (record, unknown) = characteristics_section(&toks);
    assert!(record.institution.code.is_none());
    assert!(record.course.code.is_none());
    assert!(record.duration.ammount.is_none());
    assert!(record.duration.unit.is_none());
    assert_eq!(record.degree.unwrap().0, "Licenciatura");
    assert!(unknown.is_empty());
}

#[test]
fn a_later_bad_ects_value_clears_the_field() {
    let toks = vec![
        entry("ECTS: 240"),
        Token::Markup,
        entry("ECTS: banana"),
        Token::Markup,
    ];
    let (record, _) = characteristics_section(&toks);
    assert!(record.ects.is_none());
}

#[test]
fn scan_ends_at_a_text_token_without_separator() {
    let toks = vec![
        entry("Grau: Licenciatura"),
        Token::Markup,
        entry("plain text without label"),
        Token::Markup,
        entry("ECTS: 240"),
        Token::Markup,
    ];
    let (record, unknown) = characteristics_section(&toks);
    assert_eq!(record.degree.unwrap().0, "Licenciatura");
    assert!(record.ects.is_none());
    assert!(unknown.is_empty());
}

#[test]
fn a_missing_separator_token_misaligns_the_next_entry() {
    let toks = vec![
        entry("Código: 1100/L500"),
        entry("Grau: Licenciatura"),
        Token::Markup,
    ];
    let (record, _) = characteristics_section(&toks);
    assert_eq!(record.institution.code.unwrap().0, "1100");
    assert!(record.degree.is_none());
}

#[test]
fn characteristics_extraction_is_idempotent_over_stream_copies() {
    let make = || {
        vec![
            entry("Código: 1100/L500"),
            Token::Markup,
            entry("Área CNAEF: 481 Ciências Informáticas"),
            Token::Markup,
            entry("Mystery: value"),
            Token::Markup,
        ]
    };
    let first = characteristics_section(&make());
    let second = characteristics_section(&make());
    assert_eq!(first, second);
}

#[test]
fn merging_most_fields_keeps_the_contact_data() {
    let toks = vec![
        entry("Código: 1100/L500"),
        Token::Markup,
        entry("Grau: Licenciatura"),
        Token::Markup,
    ];
    let (parsed, _) = characteristics_section(&toks);
    let mut target = Characteristics::default();
    let mut address = Address::default();
    address.push("Some Street".to_string());
    target.institution.address = Some(address);
    target.set_most_of_them(parsed);
    assert_eq!(target.institution.code.unwrap().0, "1100");
    assert_eq!(target.course.code.unwrap().0, "L500");
    assert_eq!(target.degree.unwrap().0, "Licenciatura");
    let kept = target.institution.address.unwrap();
    assert_eq!(kept.lines, vec!["Some Street".to_string()]);
}

#[test]
fn adopting_contact_data_keeps_the_identity_fields() {
    let toks = vec![entry("Código: 1100/L500"), Token::Markup];
    let (mut record, _) = characteristics_section(&toks);
    let mut contacts = Institution::default();
    let mut address = Address::default();
    address.push("Campus 1".to_string());
    contacts.address = Some(address);
    let mut phones = PhoneNumberList::default();
    phones.push("213456789".to_string());
    contacts.phone_numbers = Some(phones);
    record.set_institution_meh(contacts);
    assert_eq!(record.institution.code.unwrap().0, "1100");
    let address = record.institution.address.unwrap();
    assert_eq!(address.lines, vec!["Campus 1".to_string()]);
    let phones = record.institution.phone_numbers.unwrap();
    assert_eq!(phones.len(), 1);
    assert_eq!(phones.get(0).0, "213456789");
}
