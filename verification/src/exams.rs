//! The admission-requirement extractor.
//!
//! A four-stage scan over the section's tokens. The first text token fixes
//! the stage: one of two recognized headers selects a choice-based layout
//! (`SingleChoice` or `GroupChoice`), any other text selects `AllMandatory`
//! and is reprocessed as the first exam entry. Every further text token is
//! either one of two sentinel marker strings — an AND-marker closing the
//! current clause and an OR-marker opening a new alternative inside it — or
//! an exam entry folded into the structure according to the stage. After
//! each text token one separator token is consumed blindly; the scan stops
//! at the first non-text token or at the end of the stream.

use vstd::prelude::*;

use crate::exams::types::{
    parse_exam_spec, Exam, ExamGroup, Exams, ExamsView, ExamView, MandatoryExams, OptionalExams,
};
use crate::token::{drop2, Token, TokenView};
use crate::utils::non_empty_vector::NonEmptyVector;

pub mod types;

verus! {

/// The layout fixed by the first text token of the section.
#[derive(Debug, Clone, Copy)]
pub enum Stage {
    /// Each exam entry is one independently satisfying alternative.
    SingleChoice,
    /// Consecutive exam entries are conjoined into one alternative.
    GroupChoice,
    /// Exam entries form a flat list that must be satisfied in full.
    AllMandatory,
}

/// The header that selects the `SingleChoice` stage.
pub open spec fn single_choice_header() -> Seq<char> {
    "Uma das seguintes provas:"@
}

/// The header that selects the `GroupChoice` stage.
pub open spec fn group_choice_header() -> Seq<char> {
    "Um dos seguintes conjuntos:"@
}

/// The sentinel marker that closes the current clause: six non-breaking
/// spaces followed by the word "e".
pub open spec fn and_marker() -> Seq<char> {
    "\u{a0}\u{a0}\u{a0}\u{a0}\u{a0}\u{a0}e"@
}

/// The sentinel marker that opens a new alternative inside the current
/// clause: six non-breaking spaces followed by the word "ou".
pub open spec fn or_marker() -> Seq<char> {
    "\u{a0}\u{a0}\u{a0}\u{a0}\u{a0}\u{a0}ou"@
}

/// The whole state of the scan between two tokens.
pub ghost struct ScanState {
    pub stage: Option<Stage>,
    pub optional: Option<Seq<Seq<Seq<ExamView>>>>,
    pub mandatory: Option<Seq<ExamView>>,
}

/// The state before the first token: no stage fixed, nothing built.
pub open spec fn initial_scan_state() -> ScanState {
    ScanState { stage: None, optional: None, mandatory: None }
}

/// What the AND-marker does: close the current clause and append a fresh
/// clause holding one empty alternative. Ignored while no optional
/// structure exists.
pub open spec fn apply_and_marker(optional: Option<Seq<Seq<Seq<ExamView>>>>) -> Option<
    Seq<Seq<Seq<ExamView>>>,
> {
    match optional {
        Some(o) => Some(o.push(seq![Seq::<ExamView>::empty()])),
        None => None,
    }
}

/// What the OR-marker does: open a new empty alternative inside the current
/// clause. Ignored while no optional structure exists.
pub open spec fn apply_or_marker(optional: Option<Seq<Seq<Seq<ExamView>>>>) -> Option<
    Seq<Seq<Seq<ExamView>>>,
> {
    match optional {
        Some(o) => Some(o.update(o.len() - 1, o.last().push(Seq::<ExamView>::empty()))),
        None => None,
    }
}

/// Fold one parsed exam into the optional structure in the `SingleChoice`
/// stage: the exam fills the alternative a marker just opened, or else
/// stands as a fresh single-exam alternative of the current clause.
pub open spec fn single_choice_insert(
    optional: Option<Seq<Seq<Seq<ExamView>>>>,
    e: ExamView,
) -> Seq<Seq<Seq<ExamView>>> {
    match optional {
        None => seq![seq![seq![e]]],
        Some(o) => {
            let clause = o.last();
            let clause2 = if clause.len() > 0 && clause.last().len() == 0 {
                clause.update(clause.len() - 1, seq![e])
            } else {
                clause.push(seq![e])
            };
            o.update(o.len() - 1, clause2)
        },
    }
}

/// Fold one parsed exam into the optional structure in the `GroupChoice`
/// stage: the exam joins the last alternative of the current clause.
pub open spec fn group_choice_insert(
    optional: Option<Seq<Seq<Seq<ExamView>>>>,
    e: ExamView,
) -> Seq<Seq<Seq<ExamView>>> {
    match optional {
        None => seq![seq![seq![e]]],
        Some(o) => {
            let clause = o.last();
            let clause2 = if clause.len() > 0 {
                clause.update(clause.len() - 1, clause.last().push(e))
            } else {
                clause.push(seq![e])
            };
            o.update(o.len() - 1, clause2)
        },
    }
}

/// Fold one parsed exam into the state according to the fixed stage.
pub open spec fn apply_exam(stage: Stage, st: ScanState, e: ExamView) -> ScanState {
    match stage {
        Stage::SingleChoice => ScanState {
            stage: st.stage,
            optional: Some(single_choice_insert(st.optional, e)),
            mandatory: st.mandatory,
        },
        Stage::GroupChoice => ScanState {
            stage: st.stage,
            optional: Some(group_choice_insert(st.optional, e)),
            mandatory: st.mandatory,
        },
        Stage::AllMandatory => ScanState {
            stage: st.stage,
            optional: st.optional,
            mandatory: Some(
                match st.mandatory {
                    Some(m) => m.push(e),
                    None => seq![e],
                },
            ),
        },
    }
}

/// One text token handled with the stage already fixed: a marker reshapes
/// the structure, any other text is an exam entry, and an entry that fails
/// to parse is skipped.
pub open spec fn scan_step_fixed(stage: Stage, st: ScanState, text: Seq<char>) -> ScanState {
    if text == and_marker() {
        ScanState { stage: st.stage, optional: apply_and_marker(st.optional), mandatory: st.mandatory }
    } else if text == or_marker() {
        ScanState { stage: st.stage, optional: apply_or_marker(st.optional), mandatory: st.mandatory }
    } else {
        match parse_exam_spec(text) {
            Some(e) => apply_exam(stage, st, e),
            None => st,
        }
    }
}

/// The scan itself: fix the stage on the first text token, then fold every
/// further text token into the state, consuming one separator token after
/// each; stop at the first non-text token or at the end of the stream.
pub open spec fn scan(toks: Seq<TokenView>, st: ScanState) -> ScanState
    decreases toks.len(),
{
    if toks.len() == 0 {
        st
    } else {
        match toks[0] {
            TokenView::Markup => st,
            TokenView::Text(text) => match st.stage {
                Some(stage) => scan(drop2(toks), scan_step_fixed(stage, st, text)),
                None => {
                    if text == single_choice_header() {
                        scan(
                            drop2(toks),
                            ScanState {
                                stage: Some(Stage::SingleChoice),
                                optional: st.optional,
                                mandatory: st.mandatory,
                            },
                        )
                    } else if text == group_choice_header() {
                        scan(
                            drop2(toks),
                            ScanState {
                                stage: Some(Stage::GroupChoice),
                                optional: st.optional,
                                mandatory: st.mandatory,
                            },
                        )
                    } else {
                        scan(
                            drop2(toks),
                            scan_step_fixed(
                                Stage::AllMandatory,
                                ScanState {
                                    stage: Some(Stage::AllMandatory),
                                    optional: st.optional,
                                    mandatory: st.mandatory,
                                },
                                text,
                            ),
                        )
                    }
                },
            },
        }
    }
}

/// What the whole extraction of a section yields.
pub open spec fn exams_section_spec(toks: Seq<TokenView>) -> ExamsView {
    let st = scan(toks, initial_scan_state());
    ExamsView { optional: st.optional, mandatory: st.mandatory }
}

/// A scan state is consistent: before a stage is fixed nothing is built,
/// and a fixed stage only ever builds one of the two parts.
pub open spec fn consistent_state(st: ScanState) -> bool {
    match st.stage {
        None => st.optional is None && st.mandatory is None,
        Some(Stage::AllMandatory) => st.optional is None,
        Some(_) => st.mandatory is None,
    }
}

proof fn lemma_scan_consistent(toks: Seq<TokenView>, st: ScanState)
    requires
        consistent_state(st),
    ensures
        consistent_state(scan(toks, st)),
    decreases toks.len(),
{
    if toks.len() > 0 {
        match toks[0] {
            TokenView::Markup => {},
            TokenView::Text(text) => match st.stage {
                Some(stage) => {
                    lemma_scan_consistent(drop2(toks), scan_step_fixed(stage, st, text));
                },
                None => {
                    if text == single_choice_header() {
                        lemma_scan_consistent(
                            drop2(toks),
                            ScanState {
                                stage: Some(Stage::SingleChoice),
                                optional: st.optional,
                                mandatory: st.mandatory,
                            },
                        );
                    } else if text == group_choice_header() {
                        lemma_scan_consistent(
                            drop2(toks),
                            ScanState {
                                stage: Some(Stage::GroupChoice),
                                optional: st.optional,
                                mandatory: st.mandatory,
                            },
                        );
                    } else {
                        lemma_scan_consistent(
                            drop2(toks),
                            scan_step_fixed(
                                Stage::AllMandatory,
                                ScanState {
                                    stage: Some(Stage::AllMandatory),
                                    optional: st.optional,
                                    mandatory: st.mandatory,
                                },
                                text,
                            ),
                        );
                    }
                },
            },
        }
    }
}

/// The extractor never builds both parts of a record: a section either
/// yields choice-based requirements or a flat mandatory list, never both.
pub proof fn lemma_exams_section_exclusive(toks: Seq<TokenView>)
    ensures
        !(exams_section_spec(toks).optional is Some && exams_section_spec(toks).mandatory
            is Some),
{
    lemma_scan_consistent(toks, initial_scan_state());
}

/// The working optional structure is well formed: at least one clause, and
/// every clause holds at least one alternative.
pub open spec fn optional_wf(o: &Option<NonEmptyVector<NonEmptyVector<ExamGroup>>>) -> bool {
    match o {
        Some(v) => v.wf() && forall|i: int| 0 <= i < v@.len() ==> v@[i].wf(),
        None => true,
    }
}

/// The working mandatory list is well formed: at least one exam.
pub open spec fn mandatory_wf(m: &Option<NonEmptyVector<Exam>>) -> bool {
    match m {
        Some(v) => v.wf(),
        None => true,
    }
}

/// A group holding exactly one exam.
fn singleton_group(exam: Exam) -> (r: ExamGroup)
    ensures
        r@ == seq![exam@],
{
    let mut g = ExamGroup::default();
    g.push(exam);
    proof {
        assert(g@ =~= seq![exam@]);
    }
    g
}

/// The optional structure a first exam creates: one clause holding one
/// single-exam alternative.
fn initial_optional(exam: Exam) -> (r: NonEmptyVector<NonEmptyVector<ExamGroup>>)
    ensures
        r.deep_view() == seq![seq![seq![exam@]]],
        optional_wf(&Some(r)),
{
    let inner = NonEmptyVector::new(singleton_group(exam));
    proof {
        assert(inner.deep_view() =~= seq![seq![exam@]]);
    }
    let outer = NonEmptyVector::new(inner);
    proof {
        assert(outer.deep_view() =~= seq![seq![seq![exam@]]]);
    }
    outer
}

/// Perform the AND-marker step on the working structure.
fn and_marker_step(optional: &mut Option<NonEmptyVector<NonEmptyVector<ExamGroup>>>)
    requires
        optional_wf(old(optional)),
    ensures
        optional_wf(final(optional)),
        final(optional).deep_view() == apply_and_marker(old(optional).deep_view()),
{
    match optional {
        Some(o) => {
            let ghost pre = o.deep_view();
            o.push(NonEmptyVector::new(ExamGroup::default()));
            proof {
                assert(o.deep_view() =~~= pre.push(seq![Seq::<ExamView>::empty()]));
            }
        },
        None => {},
    }
}

/// Perform the OR-marker step on the working structure.
fn or_marker_step(optional: &mut Option<NonEmptyVector<NonEmptyVector<ExamGroup>>>)
    requires
        optional_wf(old(optional)),
    ensures
        optional_wf(final(optional)),
        final(optional).deep_view() == apply_or_marker(old(optional).deep_view()),
{
    match optional {
        Some(o) => {
            let ghost pre = o.deep_view();
            let ghost pre_shallow = o@;
            let clause = o.last_mut();
            let ghost clause_pre = clause.deep_view();
            clause.push(ExamGroup::default());
            proof {
                assert(clause.deep_view() =~~= clause_pre.push(Seq::<ExamView>::empty()));
                assert(clause_pre == pre.last()) by {
                    assert(pre_shallow.last().deep_view() == pre[pre.len() - 1]);
                }
                assert(o.deep_view() =~= pre.update(
                    pre.len() - 1,
                    pre.last().push(Seq::<ExamView>::empty()),
                ));
            }
        },
        None => {},
    }
}

/// Fold one parsed exam into the working structure, `SingleChoice` stage.
fn single_choice_step(
    optional: &mut Option<NonEmptyVector<NonEmptyVector<ExamGroup>>>,
    exam: Exam,
)
    requires
        optional_wf(old(optional)),
    ensures
        optional_wf(final(optional)),
        final(optional).deep_view() == Some(
            single_choice_insert(old(optional).deep_view(), exam@),
        ),
{
    match optional {
        Some(o) => {
            let ghost pre = o.deep_view();
            let ghost pre_shallow = o@;
            let clause = o.last_mut();
            let ghost clause_pre = clause.deep_view();
            let ghost clause_pre_shallow = clause@;
            proof {
                assert(clause_pre == pre.last()) by {
                    assert(pre[pre.len() - 1] == pre_shallow[pre_shallow.len() - 1].deep_view());
                }
                assert(clause_pre[clause_pre.len() - 1] == clause_pre_shallow[clause_pre_shallow.len()
                    - 1].deep_view());
            }
            if clause.last().len() == 0 {
                let group = clause.last_mut();
                *group = singleton_group(exam);
            } else {
                clause.push(singleton_group(exam));
            }
            proof {
                if clause_pre.last().len() == 0 {
                    assert(clause.deep_view() =~= clause_pre.update(
                        clause_pre.len() - 1,
                        seq![exam@],
                    ));
                } else {
                    assert(clause.deep_view() =~= clause_pre.push(seq![exam@]));
                }
            }
        },
        None => {
            *optional = Some(initial_optional(exam));
        },
    }
    proof {
        match old(optional).deep_view() {
            Some(pre) => {
                assert(optional.deep_view()->Some_0 =~= single_choice_insert(Some(pre), exam@));
            },
            None => {},
        }
    }
}

/// Fold one parsed exam into the working structure, `GroupChoice` stage.
fn group_choice_step(
    optional: &mut Option<NonEmptyVector<NonEmptyVector<ExamGroup>>>,
    exam: Exam,
)
    requires
        optional_wf(old(optional)),
    ensures
        optional_wf(final(optional)),
        final(optional).deep_view() == Some(
            group_choice_insert(old(optional).deep_view(), exam@),
        ),
{
    match optional {
        Some(o) => {
            let ghost pre = o.deep_view();
            let ghost pre_shallow = o@;
            let clause = o.last_mut();
            let ghost clause_pre = clause.deep_view();
            let ghost clause_pre_shallow = clause@;
            proof {
                assert(clause_pre == pre.last()) by {
                    assert(pre[pre.len() - 1] == pre_shallow[pre_shallow.len() - 1].deep_view());
                }
                assert(clause_pre[clause_pre.len() - 1] == clause_pre_shallow[clause_pre_shallow.len()
                    - 1].deep_view());
            }
            let group = clause.last_mut();
            let ghost group_pre = group@;
            group.push(exam);
            proof {
                assert(group_pre == clause_pre.last());
                assert(clause.deep_view() =~= clause_pre.update(
                    clause_pre.len() - 1,
                    clause_pre.last().push(exam@),
                ));
            }
        },
        None => {
            *optional = Some(initial_optional(exam));
        },
    }
    proof {
        match old(optional).deep_view() {
            Some(pre) => {
                assert(optional.deep_view()->Some_0 =~= group_choice_insert(Some(pre), exam@));
            },
            None => {},
        }
    }
}

/// One text token handled with the stage already fixed, executably: the
/// working structures end up exactly where [`scan_step_fixed`] puts them.
fn fixed_step(
    stage: Stage,
    text: &str,
    optional: &mut Option<NonEmptyVector<NonEmptyVector<ExamGroup>>>,
    mandatory: &mut Option<NonEmptyVector<Exam>>,
)
    requires
        optional_wf(old(optional)),
        mandatory_wf(old(mandatory)),
    ensures
        optional_wf(final(optional)),
        mandatory_wf(final(mandatory)),
        ({
            let st0 = ScanState {
                stage: Some(stage),
                optional: old(optional).deep_view(),
                mandatory: old(mandatory).deep_view(),
            };
            let st1 = scan_step_fixed(stage, st0, text@);
            final(optional).deep_view() == st1.optional && final(mandatory).deep_view()
                == st1.mandatory
        }),
{
    if crate::text::str_eq(text, "\u{a0}\u{a0}\u{a0}\u{a0}\u{a0}\u{a0}e") {
        and_marker_step(optional);
    } else if crate::text::str_eq(text, "\u{a0}\u{a0}\u{a0}\u{a0}\u{a0}\u{a0}ou") {
        or_marker_step(optional);
    } else {
        match Exam::from_str(text) {
            Ok(exam) => match stage {
                Stage::SingleChoice => single_choice_step(optional, exam),
                Stage::GroupChoice => group_choice_step(optional, exam),
                Stage::AllMandatory => mandatory_step(mandatory, exam),
            },
            Err(_) => {},
        }
    }
}

/// Fold one parsed exam into the working mandatory list.
fn mandatory_step(mandatory: &mut Option<NonEmptyVector<Exam>>, exam: Exam)
    requires
        mandatory_wf(old(mandatory)),
    ensures
        mandatory_wf(final(mandatory)),
        final(mandatory).deep_view() == Some(
            match old(mandatory).deep_view() {
                Some(m) => m.push(exam@),
                None => seq![exam@],
            },
        ),
{
    match mandatory {
        Some(m) => {
            let ghost pre = m.deep_view();
            m.push(exam);
            proof {
                assert(m.deep_view() =~= pre.push(exam@));
            }
        },
        None => {
            let m = NonEmptyVector::new(exam);
            proof {
                assert(m.deep_view() =~= seq![exam@]);
            }
            *mandatory = Some(m);
        },
    }
}

/// The working locals read as the scan's mathematical state.
pub open spec fn working_state(
    stage: Option<Stage>,
    optional: &Option<NonEmptyVector<NonEmptyVector<ExamGroup>>>,
    mandatory: &Option<NonEmptyVector<Exam>>,
) -> ScanState {
    ScanState { stage, optional: optional.deep_view(), mandatory: mandatory.deep_view() }
}

/// Extract the admission-requirement record of one section, whose tokens
/// start just after the recognized section header.
pub fn exams_section(toks: &Vec<Token>) -> (r: Exams)
    ensures
        r@ == exams_section_spec(toks.deep_view()),
        r.wf(),
{
    let ghost tv = toks.deep_view();
    let n = toks.len();
    let mut stage: Option<Stage> = None;
    let mut optional_exams: Option<NonEmptyVector<NonEmptyVector<ExamGroup>>> = None;
    let mut mandatory_exams: Option<NonEmptyVector<Exam>> = None;
    let mut pos: usize = 0;
    let mut done = false;
    proof {
        assert(tv.skip(0) =~= tv);
    }
    while !done && pos < n
        invariant
            tv == toks.deep_view(),
            n == tv.len(),
            pos <= n,
            optional_wf(&optional_exams),
            mandatory_wf(&mandatory_exams),
            scan(tv, initial_scan_state()) == scan(
                tv.skip(pos as int),
                working_state(stage, &optional_exams, &mandatory_exams),
            ),
            done ==> scan(
                tv.skip(pos as int),
                working_state(stage, &optional_exams, &mandatory_exams),
            ) == working_state(stage, &optional_exams, &mandatory_exams),
        decreases n - pos + if done {
            0int
        } else {
            1int
        },
    {
        let ghost pos0 = pos as int;
        let ghost m0 = working_state(stage, &optional_exams, &mandatory_exams);
        proof {
            assert(tv.skip(pos0)[0] == tv[pos0]);
            assert(tv[pos0] == toks@[pos0].deep_view());
        }
        match &toks[pos] {
            Token::Markup => {
                done = true;
                proof {
                    assert(scan(tv.skip(pos0), m0) == m0);
                }
            },
            Token::Text(text) => {
                let ghost text_v = text@;
                match stage {
                    None => {
                        if crate::text::str_eq(text.as_str(), "Uma das seguintes provas:") {
                            stage = Some(Stage::SingleChoice);
                        } else if crate::text::str_eq(
                            text.as_str(),
                            "Um dos seguintes conjuntos:",
                        ) {
                            stage = Some(Stage::GroupChoice);
                        } else {
                            stage = Some(Stage::AllMandatory);
                            fixed_step(
                                Stage::AllMandatory,
                                text.as_str(),
                                &mut optional_exams,
                                &mut mandatory_exams,
                            );
                        }
                    },
                    Some(s) => {
                        fixed_step(s, text.as_str(), &mut optional_exams, &mut mandatory_exams);
                    },
                }
                if n - pos >= 2 {
                    pos += 2;
                } else {
                    pos = n;
                }
                proof {
                    let m1 = working_state(stage, &optional_exams, &mandatory_exams);
                    assert(tv.skip(pos0)[0] == TokenView::Text(text_v));
                    assert(scan(tv.skip(pos0), m0) == scan(drop2(tv.skip(pos0)), m1));
                    assert(drop2(tv.skip(pos0)) =~= tv.skip(pos as int));
                }
            },
        }
    }
    proof {
        if !done {
            assert(tv.skip(pos as int) =~= Seq::<TokenView>::empty());
        }
        assert(scan(tv, initial_scan_state()) == working_state(
            stage,
            &optional_exams,
            &mandatory_exams,
        ));
    }
    Exams {
        optional: match optional_exams {
            Some(o) => Some(OptionalExams(o)),
            None => None,
        },
        mandatory: match mandatory_exams {
            Some(m) => Some(MandatoryExams(m)),
            None => None,
        },
    }
}

} // verus!
