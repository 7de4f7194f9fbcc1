//! The data model of an admission-requirement record.
//!
//! An [`Exams`] record has two independent optional parts. The `mandatory`
//! part is a flat conjunction: every exam listed must be completed. The
//! `optional` part is a three-level nesting: a conjunction of clauses, each
//! clause a disjunction of alternatives, each alternative an [`ExamGroup`]
//! whose exams must all be completed together.

use vstd::prelude::*;

use crate::text::{split_once_spec, trim_spec};
use crate::utils::non_empty_vector::NonEmptyVector;

verus! {

/// An exam code, as printed before the first space of an entry.
#[derive(Debug, Clone, PartialEq)]
pub struct ExamCode(pub String);

impl View for ExamCode {
    type V = Seq<char>;

    open spec fn view(&self) -> Seq<char> {
        self.0@
    }
}

impl DeepView for ExamCode {
    type V = Seq<char>;

    open spec fn deep_view(&self) -> Seq<char> {
        self.0@
    }
}

/// An exam name, as printed after the first space of an entry.
#[derive(Debug, Clone, PartialEq)]
pub struct ExamName(pub String);

impl View for ExamName {
    type V = Seq<char>;

    open spec fn view(&self) -> Seq<char> {
        self.0@
    }
}

impl DeepView for ExamName {
    type V = Seq<char>;

    open spec fn deep_view(&self) -> Seq<char> {
        self.0@
    }
}

/// One standardized exam: an optional code and an optional name.
#[derive(Debug, Clone, PartialEq)]
pub struct Exam {
    pub code: Option<ExamCode>,
    pub name: Option<ExamName>,
}

/// The mathematical image of an [`Exam`].
pub ghost struct ExamView {
    pub code: Option<Seq<char>>,
    pub name: Option<Seq<char>>,
}

impl View for Exam {
    type V = ExamView;

    open spec fn view(&self) -> ExamView {
        ExamView { code: self.code.deep_view(), name: self.name.deep_view() }
    }
}

impl DeepView for Exam {
    type V = ExamView;

    open spec fn deep_view(&self) -> ExamView {
        self.view()
    }
}

/// What parsing one text entry as an exam yields: the part before the first
/// space becomes the code and the rest becomes the name, both trimmed of
/// surrounding whitespace; an entry without any space is rejected.
pub open spec fn parse_exam_spec(s: Seq<char>) -> Option<ExamView> {
    match split_once_spec(s, " "@) {
        Some(parts) => Some(
            ExamView { code: Some(trim_spec(parts.0)), name: Some(trim_spec(parts.1)) },
        ),
        None => None,
    }
}

impl Exam {
    /// Parse one text entry, as [`parse_exam_spec`] describes.
    pub fn from_str(s: &str) -> (r: Result<Exam, ()>)
        ensures
            match r {
                Ok(e) => parse_exam_spec(s@) == Some(e@),
                Err(_) => parse_exam_spec(s@) is None,
            },
    {
        match crate::text::split_once_str(s, " ") {
            Some(parts) => {
                let code = crate::text::trim_str(parts.0.as_str());
                let name = crate::text::trim_str(parts.1.as_str());
                Ok(Exam { code: Some(ExamCode(code)), name: Some(ExamName(name)) })
            },
            None => Err(()),
        }
    }
}

/// The exam parser rejects every string without a space.
pub proof fn lemma_exam_parser_no_space(s: Seq<char>)
    requires
        forall|i: int| 0 <= i < s.len() ==> s[i] != ' ',
    ensures
        parse_exam_spec(s) is None,
{
    reveal_strlit(" ");
    crate::text::lemma_find_first(s, " "@);
    match crate::text::find_first(s, " "@) {
        Some(k) => {
            assert(s.subrange(k, k + 1)[0] == s[k]);
            assert(false);
        },
        None => {},
    }
}

/// The exam parser splits a string with at least one space at its first
/// space: the code is the text before it and the name the remainder, each
/// trimmed of its own surrounding whitespace.
pub proof fn lemma_exam_parser_splits(s: Seq<char>, i: int)
    requires
        0 <= i < s.len(),
        s[i] == ' ',
        forall|j: int| 0 <= j < i ==> s[j] != ' ',
    ensures
        parse_exam_spec(s) == Some(
            ExamView {
                code: Some(trim_spec(s.take(i))),
                name: Some(trim_spec(s.skip(i + 1))),
            },
        ),
{
    reveal_strlit(" ");
    crate::text::lemma_find_first(s, " "@);
    assert(crate::text::occurs_at(s, " "@, i)) by {
        assert(s.subrange(i, i + 1) =~= " "@);
    }
    assert forall|j: int| 0 <= j < i implies !crate::text::occurs_at(s, " "@, j) by {
        if crate::text::occurs_at(s, " "@, j) {
            assert(s.subrange(j, j + 1)[0] == s[j]);
        }
    }
    match crate::text::find_first(s, " "@) {
        Some(k) => {
            assert(k == i);
        },
        None => {
            assert(false);
        },
    }
}

/// A conjunction of exams forming one alternative: to satisfy the
/// alternative, every exam of the group must be completed.
#[derive(Debug, Clone, PartialEq)]
pub struct ExamGroup(pub Vec<Exam>);

impl View for ExamGroup {
    type V = Seq<ExamView>;

    open spec fn view(&self) -> Seq<ExamView> {
        self.0.deep_view()
    }
}

impl DeepView for ExamGroup {
    type V = Seq<ExamView>;

    open spec fn deep_view(&self) -> Seq<ExamView> {
        self.0.deep_view()
    }
}

impl Default for ExamGroup {
    /// An empty group, as freshly opened by a marker.
    fn default() -> (r: Self)
        ensures
            r@ == Seq::<ExamView>::empty(),
    {
        let r = ExamGroup(Vec::new());
        proof {
            assert(r@ =~= Seq::<ExamView>::empty());
        }
        r
    }
}

impl ExamGroup {
    /// Append one exam to the conjunction.
    pub fn push(&mut self, exam: Exam)
        ensures
            final(self)@ == old(self)@.push(exam@),
    {
        let ghost pre = self.0.deep_view();
        self.0.push(exam);
        proof {
            assert(self.0.deep_view() =~= pre.push(exam@));
        }
    }

    /// How many exams the group holds.
    pub fn len(&self) -> (r: usize)
        ensures
            r == self@.len(),
    {
        self.0.len()
    }

    /// The exam at position `i`.
    pub fn get(&self, i: usize) -> (r: &Exam)
        requires
            i < self@.len(),
        ensures
            r@ == self@[i as int],
    {
        &self.0[i]
    }
}

/// The nested optional part: a conjunction of clauses, each clause a
/// disjunction of [`ExamGroup`] alternatives.
#[derive(Debug, Clone, PartialEq)]
pub struct OptionalExams(pub NonEmptyVector<NonEmptyVector<ExamGroup>>);

impl View for OptionalExams {
    type V = Seq<Seq<Seq<ExamView>>>;

    open spec fn view(&self) -> Seq<Seq<Seq<ExamView>>> {
        self.0.deep_view()
    }
}

impl DeepView for OptionalExams {
    type V = Seq<Seq<Seq<ExamView>>>;

    open spec fn deep_view(&self) -> Seq<Seq<Seq<ExamView>>> {
        self.0.deep_view()
    }
}

impl OptionalExams {
    /// The nesting invariant: there is at least one clause and every clause
    /// holds at least one alternative.
    pub open spec fn wf(&self) -> bool {
        self.0.wf() && forall|i: int| 0 <= i < self.0@.len() ==> self.0@[i].wf()
    }

    /// How many clauses the record holds.
    pub fn len(&self) -> (r: usize)
        ensures
            r == self@.len(),
    {
        self.0.len()
    }

    /// The clause at position `i`.
    pub fn get(&self, i: usize) -> (r: &NonEmptyVector<ExamGroup>)
        requires
            i < self@.len(),
        ensures
            r.deep_view() == self@[i as int],
    {
        self.0.get(i)
    }
}

/// The flat mandatory part: every exam listed must be completed.
#[derive(Debug, Clone, PartialEq)]
pub struct MandatoryExams(pub NonEmptyVector<Exam>);

impl View for MandatoryExams {
    type V = Seq<ExamView>;

    open spec fn view(&self) -> Seq<ExamView> {
        self.0.deep_view()
    }
}

impl DeepView for MandatoryExams {
    type V = Seq<ExamView>;

    open spec fn deep_view(&self) -> Seq<ExamView> {
        self.0.deep_view()
    }
}

impl MandatoryExams {
    /// The invariant: the list holds at least one exam.
    pub open spec fn wf(&self) -> bool {
        self.0.wf()
    }

    /// How many exams the list holds.
    pub fn len(&self) -> (r: usize)
        ensures
            r == self@.len(),
    {
        self.0.len()
    }

    /// The exam at position `i`.
    pub fn get(&self, i: usize) -> (r: &Exam)
        requires
            i < self@.len(),
        ensures
            r@ == self@[i as int],
    {
        self.0.get(i)
    }
}

/// A full admission-requirement record.
#[derive(Debug, Clone, PartialEq)]
pub struct Exams {
    pub optional: Option<OptionalExams>,
    pub mandatory: Option<MandatoryExams>,
}

/// The mathematical image of an [`Exams`] record.
pub ghost struct ExamsView {
    pub optional: Option<Seq<Seq<Seq<ExamView>>>>,
    pub mandatory: Option<Seq<ExamView>>,
}

impl View for Exams {
    type V = ExamsView;

    open spec fn view(&self) -> ExamsView {
        ExamsView { optional: self.optional.deep_view(), mandatory: self.mandatory.deep_view() }
    }
}

impl DeepView for Exams {
    type V = ExamsView;

    open spec fn deep_view(&self) -> ExamsView {
        self.view()
    }
}

impl Exams {
    /// The record's invariant: whatever parts are present are well formed.
    pub open spec fn wf(&self) -> bool {
        &&& match self.optional {
            Some(o) => o.wf(),
            None => true,
        }
        &&& match self.mandatory {
            Some(m) => m.wf(),
            None => true,
        }
    }
}

} // verus!
