use dges_extract::charset::corrected_content_type;
use dges_extract::headers::{classify_header, SectionHeader};

#[test]
fn recognized_headers_select_their_extractor() {
    assert_eq!(
        classify_header("Endereço e Contactos da Instituição"),
        SectionHeader::InstitutionContacts
    );
    assert_eq!(
        classify_header("Características do par Instituição/Curso"),
        SectionHeader::CourseCharacteristics
    );
    assert_eq!(classify_header("Provas de Ingresso"), SectionHeader::AdmissionExams);
    assert_eq!(
        classify_header("Dados Estatísticos de Candidaturas Anteriores"),
        SectionHeader::Statistics
    );
    assert_eq!(classify_header("Outras Informações"), SectionHeader::OtherInformation);
}

#[test]
fn boilerplate_headers_are_known_and_ignored() {
    assert_eq!(
        classify_header("Guia das Provas de Ingresso de 2022 - Detalhe de Curso<br>&nbsp;"),
        SectionHeader::KnownIgnored
    );
    assert_eq!(classify_header("some more headers"), SectionHeader::KnownIgnored);
}

#[test]
fn unrecognized_headers_are_reported_as_unknown() {
    assert_eq!(classify_header("Novidades"), SectionHeader::Unknown);
    assert_eq!(classify_header(""), SectionHeader::Unknown);
    assert_eq!(classify_header("provas de ingresso"), SectionHeader::Unknown);
}

#[test]
fn bare_html_content_type_is_tagged_with_the_charset() {
    assert_eq!(
        corrected_content_type("text/html"),
        Some("text/html; charset=windows-1252")
    );
}

#[test]
fn other_content_types_are_left_alone() {
    assert_eq!(corrected_content_type("text/html; charset=utf-8"), None);
    assert_eq!(corrected_content_type("application/json"), None);
    assert_eq!(corrected_content_type(""), None);
}
