//! Structured extraction of academic-admission data from a stream of
//! loosely-typed text fragments.
//!
//! The library turns an ordered stream of [`token::Token`]s — the text and
//! markup fragments found between two section headers of a course page —
//! into plain data records:
//!
//! * [`characteristics::characteristics_section`] fills a flat
//!   [`characteristics::Characteristics`] record from `"label: value"`
//!   entries;
//! * [`exams::exams_section`] builds an [`exams::types::Exams`] record: a
//!   flat list of mandatory exams, or a nested AND/OR/AND tree of exam
//!   choices;
//! * [`characteristics::institution::institution_contacts_section`] collects
//!   an institution's address lines and phone numbers.
//!
//! Everything that touches the network, the document tree or a database is
//! left to the caller: the extractors consume only owned tokens and return
//! only owned records.

use vstd::prelude::*;

pub mod characteristics;
pub mod charset;
pub mod exams;
pub mod headers;
pub mod text;
pub mod token;
pub mod utils;

verus! {

/// The extraction is a pure function of the tokens: two runs over equal
/// token streams — in particular over two independent copies of one
/// stream — yield structurally equal records, for every extractor.
pub proof fn lemma_extraction_deterministic(
    toks1: Seq<token::TokenView>,
    toks2: Seq<token::TokenView>,
)
    requires
        toks1 == toks2,
    ensures
        exams::exams_section_spec(toks1) == exams::exams_section_spec(toks2),
        characteristics::characteristics_section_spec(toks1)
            == characteristics::characteristics_section_spec(toks2),
        characteristics::institution::institution_contacts_spec(toks1)
            == characteristics::institution::institution_contacts_spec(toks2),
{
}

} // verus!
