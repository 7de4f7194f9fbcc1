//! Classification of the section headers of a course page.
//!
//! The caller walks the page's headers and hands the tokens after each
//! recognized one to the matching extractor. The fixed table lives here so
//! that the dispatch is a pure, checkable decision.

use vstd::prelude::*;

use crate::text::str_eq;

verus! {

/// Which extractor a section header selects.
#[derive(Debug, Clone, Copy, PartialEq, Eq, Structural)]
pub enum SectionHeader {
    /// The institution's address and contacts.
    InstitutionContacts,
    /// The characteristics of the institution/course pair.
    CourseCharacteristics,
    /// The admission exams.
    AdmissionExams,
    /// Statistics of earlier application rounds; carries no extracted data.
    Statistics,
    /// Free-form additional information; carries no extracted data.
    OtherInformation,
    /// Boilerplate headers known to carry nothing.
    KnownIgnored,
    /// Anything else, to be reported as a diagnostic.
    Unknown,
}

/// The fixed header table.
pub open spec fn classify_header_spec(text: Seq<char>) -> SectionHeader {
    if text == "Endereço e Contactos da Instituição"@ {
        SectionHeader::InstitutionContacts
    } else if text == "Características do par Instituição/Curso"@ {
        SectionHeader::CourseCharacteristics
    } else if text == "Provas de Ingresso"@ {
        SectionHeader::AdmissionExams
    } else if text == "Dados Estatísticos de Candidaturas Anteriores"@ {
        SectionHeader::Statistics
    } else if text == "Outras Informações"@ {
        SectionHeader::OtherInformation
    } else if text == "Guia das Provas de Ingresso de 2022 - Detalhe de Curso<br>&nbsp;"@ || text
        == "some more headers"@ || text == "some more headerss"@ || text
        == "some more headersss"@ {
        SectionHeader::KnownIgnored
    } else {
        SectionHeader::Unknown
    }
}

/// Classify one header's inner text against the fixed table.
pub fn classify_header(text: &str) -> (r: SectionHeader)
    ensures
        r == classify_header_spec(text@),
{
    if str_eq(text, "Endereço e Contactos da Instituição") {
        SectionHeader::InstitutionContacts
    } else if str_eq(text, "Características do par Instituição/Curso") {
        SectionHeader::CourseCharacteristics
    } else if str_eq(text, "Provas de Ingresso") {
        SectionHeader::AdmissionExams
    } else if str_eq(text, "Dados Estatísticos de Candidaturas Anteriores") {
        SectionHeader::Statistics
    } else if str_eq(text, "Outras Informações") {
        SectionHeader::OtherInformation
    } else if str_eq(text, "Guia das Provas de Ingresso de 2022 - Detalhe de Curso<br>&nbsp;")
        || str_eq(text, "some more headers") || str_eq(text, "some more headerss") || str_eq(
        text,
        "some more headersss",
    ) {
        SectionHeader::KnownIgnored
    } else {
        SectionHeader::Unknown
    }
}

} // verus!
