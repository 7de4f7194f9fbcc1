use dges_extract::characteristics::institution::institution_contacts_section;
use dges_extract::token::Token;

fn line(s: &str) -> Token {
    Token::Text(s.to_string())
}

#[test]
fn address_lines_and_phone_numbers_are_collected() {
    let toks = vec![
        line("  Estrada da Circunvalação  "),
        Token::Markup,
        line("4471-909 Maia"),
        Token::Markup,
        Token::Markup,
        line("Tel: 213 456 789, 213456790"),
        Token::Markup,
        line("Fax: 213 456 791"),
        Token::Markup,
    ];
    let institution = institution_contacts_section(&toks);
    assert!(institution.code.is_none());
    assert!(institution.name.is_none());
    assert!(institution.email_addresses.is_none());
    let address = institution.address.expect("address expected");
    assert_eq!(
        address.lines,
        vec!["Estrada da Circunvalação".to_string(), "4471-909 Maia".to_string()]
    );
    let phones = institution.phone_numbers.expect("phone numbers expected");
    assert_eq!(phones.len(), 2);
    assert_eq!(phones.get(0).0, "213456789");
    assert_eq!(phones.get(1).0, "213456790");
}

#[test]
fn a_section_without_text_yields_nothing() {
    let institution = institution_contacts_section(&vec![Token::Markup, Token::Markup]);
    assert!(institution.address.is_none());
    assert!(institution.phone_numbers.is_none());
}

#[test]
fn an_empty_section_yields_nothing() {
    let institution = institution_contacts_section(&Vec::new());
    assert!(institution.address.is_none());
    assert!(institution.phone_numbers.is_none());
}

#[test]
fn phone_lines_accumulate_across_the_section() {
    let toks = vec![
        Token::Markup,
        line("Tel: 111"),
        Token::Markup,
        line("something else"),
        line("Tel: 2 2 2, 333"),
    ];
    let institution = institution_contacts_section(&toks);
    assert!(institution.address.is_none());
    let phones = institution.phone_numbers.expect("phone numbers expected");
    assert_eq!(phones.len(), 3);
    assert_eq!(phones.get(0).0, "111");
    assert_eq!(phones.get(1).0, "222");
    assert_eq!(phones.get(2).0, "333");
}

#[test]
fn phone_numbers_lose_typographic_spaces_too() {
    let toks = vec![Token::Markup, line("Tel: 21\u{202f}345\u{2009}678, 9\u{a0}9")];
    let institution = institution_contacts_section(&toks);
    let phones = institution.phone_numbers.expect("phone numbers expected");
    assert_eq!(phones.len(), 2);
    assert_eq!(phones.get(0).0, "21345678");
    assert_eq!(phones.get(1).0, "99");
}

#[test]
fn address_only_sections_have_no_phone_part() {
    let toks = vec![line("Campo Grande"), Token::Markup];
    let institution = institution_contacts_section(&toks);
    let address = institution.address.expect("address expected");
    assert_eq!(address.lines, vec!["Campo Grande".to_string()]);
    assert!(institution.phone_numbers.is_none());
}

#[test]
fn contacts_extraction_is_idempotent_over_stream_copies() {
    let make = || {
        vec![
            line("Rua Um"),
            Token::Markup,
            Token::Markup,
            line("Tel: 123, 456"),
        ]
    };
    let first = institution_contacts_section(&make());
    let second = institution_contacts_section(&make());
    assert_eq!(first, second);
}
