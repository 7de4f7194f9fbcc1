//! The characteristics extractor and its value parsers.
//!
//! The extractor drives a label-to-value dispatch over the section's
//! tokens. Each text token is split at the first `": "` into a label and a
//! value; a fixed table maps the known Portuguese labels to the typed
//! fields of a [`Characteristics`] record, each value parsed by a small
//! pure function. A parse failure drops that single field and the scan
//! continues; an unrecognized label is recorded for diagnostics and
//! otherwise ignored. After each handled entry one separator token is
//! consumed blindly. The scan stops at the first non-text token, at the
//! first text token without the separator, or at the end of the stream.

use vstd::prelude::*;

use crate::characteristics::cnaef_area::{empty_cnaef_area, CnaefArea, CnaefAreaView};
use crate::characteristics::contest::Contest;
use crate::characteristics::course::{empty_course, Course, CourseView};
use crate::characteristics::degree::Degree;
use crate::characteristics::duration::{
    empty_duration, Ammount, Duration, DurationView, Unit,
};
use crate::characteristics::ects::Ects;
use crate::characteristics::education_type::EducationType;
use crate::characteristics::institution::{empty_institution, Institution, InstitutionView};
use crate::text::{parse_uint, parse_uint_spec, split_once_spec, split_once_str, str_eq};
use crate::token::{drop2, Token, TokenView};

pub mod cnaef_area;
pub mod contest;
pub mod course;
pub mod degree;
pub mod duration;
pub mod ects;
pub mod education_type;
pub mod institution;

verus! {

/// Why a raw value was rejected by one of the value parsers.
#[derive(Debug, Clone, Copy, PartialEq, Eq, Structural)]
pub enum ParseError {
    /// The value lacks the separator the field's shape demands.
    MissingSeparator,
    /// The numeric part is not an unsigned integer of the field's width.
    BadNumber,
}

/// What parsing a code pair yields: the parts before and after the first
/// slash; a value without a slash is rejected.
pub open spec fn parse_code_spec(value: Seq<char>) -> Option<(Seq<char>, Seq<char>)> {
    split_once_spec(value, "/"@)
}

/// Parse an `"institution/course"` code pair.
pub fn parse_code(value: &str) -> (r: Result<(institution::Code, course::Code), ParseError>)
    ensures
        match r {
            Ok(codes) => parse_code_spec(value@) == Some((codes.0@, codes.1@)),
            Err(e) => parse_code_spec(value@) is None && e == ParseError::MissingSeparator,
        },
{
    match split_once_str(value, "/") {
        Some(parts) => Ok((institution::Code(parts.0), course::Code(parts.1))),
        None => Err(ParseError::MissingSeparator),
    }
}

/// What parsing a CNAEF area yields: the code before the first space and
/// the name after it; a value without a space is rejected.
pub open spec fn parse_cnaef_area_spec(value: Seq<char>) -> Option<CnaefAreaView> {
    match split_once_spec(value, " "@) {
        Some(parts) => Some(CnaefAreaView { code: Some(parts.0), name: Some(parts.1) }),
        None => None,
    }
}

/// Parse a `"123 Some Name"` CNAEF area value.
pub fn parse_cnaef_area(value: &str) -> (r: Result<CnaefArea, ParseError>)
    ensures
        match r {
            Ok(area) => parse_cnaef_area_spec(value@) == Some(area@),
            Err(e) => parse_cnaef_area_spec(value@) is None && e == ParseError::MissingSeparator,
        },
{
    match split_once_str(value, " ") {
        Some(parts) => Ok(
            CnaefArea {
                code: Some(cnaef_area::Code(parts.0)),
                name: Some(cnaef_area::Name(parts.1)),
            },
        ),
        None => Err(ParseError::MissingSeparator),
    }
}

/// Parse a degree value: the raw text is kept as it stands; never fails.
pub fn parse_degree(value: &str) -> (r: Result<Degree, ParseError>)
    ensures
        match r {
            Ok(d) => d@ == value@,
            Err(_) => false,
        },
{
    Ok(Degree(value.to_owned()))
}

/// Parse a contest value: the raw text is kept as it stands; never fails.
pub fn parse_contest(value: &str) -> (r: Result<Contest, ParseError>)
    ensures
        match r {
            Ok(c) => c@ == value@,
            Err(_) => false,
        },
{
    Ok(Contest(value.to_owned()))
}

/// Parse an education-type value: the raw text is kept as it stands; never
/// fails.
pub fn parse_education_type(value: &str) -> (r: Result<EducationType, ParseError>)
    ensures
        match r {
            Ok(t) => t@ == value@,
            Err(_) => false,
        },
{
    Ok(EducationType(value.to_owned()))
}

/// What parsing a duration yields: the amount before the first space read
/// as an unsigned eight-bit integer, and the unit after the space; a value
/// without a space or with a bad amount is rejected.
pub open spec fn parse_duration_spec(value: Seq<char>) -> Option<DurationView> {
    match split_once_spec(value, " "@) {
        Some(parts) => match parse_uint_spec(parts.0, 255) {
            Some(a) => Some(DurationView { ammount: Some(a as u8), unit: Some(parts.1) }),
            None => None,
        },
        None => None,
    }
}

/// Parse a `"3 anos"` duration value.
pub fn parse_duration(value: &str) -> (r: Result<Duration, ParseError>)
    ensures
        match r {
            Ok(d) => parse_duration_spec(value@) == Some(d@),
            Err(e) => parse_duration_spec(value@) is None && ((e == ParseError::MissingSeparator)
                <==> split_once_spec(value@, " "@) is None),
        },
{
    match split_once_str(value, " ") {
        Some(parts) => match parse_uint(parts.0.as_str(), 255) {
            Some(a) => Ok(
                Duration { ammount: Some(Ammount(a as u8)), unit: Some(Unit(parts.1)) },
            ),
            None => Err(ParseError::BadNumber),
        },
        None => Err(ParseError::MissingSeparator),
    }
}

/// What parsing an ECTS count yields: the whole value read as an unsigned
/// sixteen-bit integer.
pub open spec fn parse_ects_spec(value: Seq<char>) -> Option<u16> {
    match parse_uint_spec(value, 65535) {
        Some(v) => Some(v as u16),
        None => None,
    }
}

/// Parse a `"240"` ECTS value.
pub fn parse_ects(value: &str) -> (r: Result<Ects, ParseError>)
    ensures
        match r {
            Ok(e) => parse_ects_spec(value@) == Some(e@),
            Err(e) => parse_ects_spec(value@) is None && e == ParseError::BadNumber,
        },
{
    match parse_uint(value, 65535) {
        Some(v) => Ok(Ects(v as u16)),
        None => Err(ParseError::BadNumber),
    }
}

/// The duration parser's round trip: a numeral of value at most 255,
/// a space, and a non-empty unit parse back to exactly that amount and
/// that unit.
pub proof fn lemma_duration_round_trip(digits: Seq<char>, unit: Seq<char>)
    requires
        digits.len() > 0,
        crate::text::all_digits(digits),
        crate::text::dec_val(digits) <= 255,
        unit.len() > 0,
    ensures
        parse_duration_spec(digits + seq![' '] + unit) == Some(
            DurationView {
                ammount: Some(crate::text::dec_val(digits) as u8),
                unit: Some(unit),
            },
        ),
{
    lemma_duration_value_splits(digits, unit);
    assert(crate::text::unsigned_digits_of(digits) == digits) by {
        assert(crate::text::is_digit_char(digits[0]));
    }
}

/// The duration parser rejects an amount above 255: the field stays
/// unset.
pub proof fn lemma_duration_overflow(digits: Seq<char>, unit: Seq<char>)
    requires
        digits.len() > 0,
        crate::text::all_digits(digits),
        crate::text::dec_val(digits) > 255,
        unit.len() > 0,
    ensures
        parse_duration_spec(digits + seq![' '] + unit) is None,
{
    lemma_duration_value_splits(digits, unit);
    assert(crate::text::unsigned_digits_of(digits) == digits) by {
        assert(crate::text::is_digit_char(digits[0]));
    }
}

/// A duration value built from a numeral, a space and a unit splits back
/// into the numeral and the unit at that very space.
proof fn lemma_duration_value_splits(digits: Seq<char>, unit: Seq<char>)
    requires
        digits.len() > 0,
        crate::text::all_digits(digits),
    ensures
        split_once_spec(digits + seq![' '] + unit, " "@) == Some((digits, unit)),
{
    let s = digits + seq![' '] + unit;
    let d = digits.len() as int;
    reveal_strlit(" ");
    crate::text::lemma_find_first(s, " "@);
    assert(crate::text::occurs_at(s, " "@, d)) by {
        assert(s[d] == ' ');
        assert(s.subrange(d, d + 1) =~= " "@);
    }
    assert forall|j: int| 0 <= j < d implies !crate::text::occurs_at(s, " "@, j) by {
        assert(s[j] == digits[j]);
        assert(crate::text::is_digit_char(digits[j]));
        if crate::text::occurs_at(s, " "@, j) {
            assert(s.subrange(j, j + 1)[0] == s[j]);
        }
    }
    match crate::text::find_first(s, " "@) {
        Some(k) => {
            assert(k == d);
            assert(s.take(d) =~= digits);
            assert(s.skip(d + 1) =~= unit);
        },
        None => {
            assert(false);
        },
    }
}

/// The flat record of a course's characteristics; every field is
/// independently optional, absence meaning "not observed in this
/// document".
#[derive(Debug, Clone, PartialEq)]
pub struct Characteristics {
    pub course: Course,
    pub institution: Institution,
    pub degree: Option<Degree>,
    pub cnaef_area: CnaefArea,
    pub duration: Duration,
    pub ects: Option<Ects>,
    pub education_type: Option<EducationType>,
    pub contest: Option<Contest>,
}

/// The mathematical image of a [`Characteristics`] record.
pub ghost struct CharacteristicsView {
    pub course: CourseView,
    pub institution: InstitutionView,
    pub degree: Option<Seq<char>>,
    pub cnaef_area: CnaefAreaView,
    pub duration: DurationView,
    pub ects: Option<u16>,
    pub education_type: Option<Seq<char>>,
    pub contest: Option<Seq<char>>,
}

impl View for Characteristics {
    type V = CharacteristicsView;

    open spec fn view(&self) -> CharacteristicsView {
        CharacteristicsView {
            course: self.course@,
            institution: self.institution@,
            degree: self.degree.deep_view(),
            cnaef_area: self.cnaef_area@,
            duration: self.duration@,
            ects: self.ects.deep_view(),
            education_type: self.education_type.deep_view(),
            contest: self.contest.deep_view(),
        }
    }
}

impl DeepView for Characteristics {
    type V = CharacteristicsView;

    open spec fn deep_view(&self) -> CharacteristicsView {
        self.view()
    }
}

/// A record with nothing observed yet.
pub open spec fn empty_characteristics() -> CharacteristicsView {
    CharacteristicsView {
        course: empty_course(),
        institution: empty_institution(),
        degree: None,
        cnaef_area: empty_cnaef_area(),
        duration: empty_duration(),
        ects: None,
        education_type: None,
        contest: None,
    }
}

impl Default for Characteristics {
    fn default() -> (r: Self)
        ensures
            r@ == empty_characteristics(),
    {
        Characteristics {
            course: Course::default(),
            institution: Institution::default(),
            degree: None,
            cnaef_area: CnaefArea::default(),
            duration: Duration::default(),
            ects: None,
            education_type: None,
            contest: None,
        }
    }
}

impl Characteristics {
    /// Adopt the contact fields of `institution` — its address, phone
    /// numbers and email addresses — keeping every other field.
    pub fn set_institution_meh(&mut self, institution: Institution)
        ensures
            final(self)@ == (CharacteristicsView {
                institution: InstitutionView {
                    code: old(self)@.institution.code,
                    name: old(self)@.institution.name,
                    address: institution@.address,
                    phone_numbers: institution@.phone_numbers,
                    email_addresses: institution@.email_addresses,
                },
                ..old(self)@
            }),
    {
        self.institution.address = institution.address;
        self.institution.phone_numbers = institution.phone_numbers;
        self.institution.email_addresses = institution.email_addresses;
    }

    /// Adopt every field of `chars` except the institution's contact
    /// fields, which are kept.
    pub fn set_most_of_them(&mut self, chars: Characteristics)
        ensures
            final(self)@ == (CharacteristicsView {
                institution: InstitutionView {
                    code: chars@.institution.code,
                    name: chars@.institution.name,
                    address: old(self)@.institution.address,
                    phone_numbers: old(self)@.institution.phone_numbers,
                    email_addresses: old(self)@.institution.email_addresses,
                },
                ..chars@
            }),
    {
        self.course = chars.course;
        self.institution.code = chars.institution.code;
        self.institution.name = chars.institution.name;
        self.degree = chars.degree;
        self.cnaef_area = chars.cnaef_area;
        self.duration = chars.duration;
        self.ects = chars.ects;
        self.education_type = chars.education_type;
        self.contest = chars.contest;
    }
}

/// One `"label: value"` entry folded into the record: a known label fills
/// its field through the matching parser, an unknown label is appended to
/// the diagnostics and changes nothing else.
pub open spec fn apply_label(
    c: CharacteristicsView,
    diags: Seq<Seq<char>>,
    label: Seq<char>,
    value: Seq<char>,
) -> (CharacteristicsView, Seq<Seq<char>>) {
    if label == "Código"@ {
        match parse_code_spec(value) {
            Some(codes) => (
                CharacteristicsView {
                    institution: InstitutionView { code: Some(codes.0), ..c.institution },
                    course: CourseView { code: Some(codes.1), ..c.course },
                    ..c
                },
                diags,
            ),
            None => (c, diags),
        }
    } else if label == "Grau"@ {
        (CharacteristicsView { degree: Some(value), ..c }, diags)
    } else if label == "Área CNAEF"@ {
        match parse_cnaef_area_spec(value) {
            Some(area) => (CharacteristicsView { cnaef_area: area, ..c }, diags),
            None => (c, diags),
        }
    } else if label == "Duração"@ {
        match parse_duration_spec(value) {
            Some(d) => (CharacteristicsView { duration: d, ..c }, diags),
            None => (c, diags),
        }
    } else if label == "ECTS"@ {
        (CharacteristicsView { ects: parse_ects_spec(value), ..c }, diags)
    } else if label == "Tipo de Ensino"@ {
        (CharacteristicsView { education_type: Some(value), ..c }, diags)
    } else if label == "Concurso"@ {
        (CharacteristicsView { contest: Some(value), ..c }, diags)
    } else {
        (c, diags.push(label))
    }
}

/// The scan itself: fold every `"label: value"` text token into the
/// record, consuming one separator token after each; stop at the first
/// non-text token, at the first text token without the `": "` separator,
/// or at the end of the stream.
pub open spec fn chars_scan(
    toks: Seq<TokenView>,
    c: CharacteristicsView,
    diags: Seq<Seq<char>>,
) -> (CharacteristicsView, Seq<Seq<char>>)
    decreases toks.len(),
{
    if toks.len() == 0 {
        (c, diags)
    } else {
        match toks[0] {
            TokenView::Markup => (c, diags),
            TokenView::Text(text) => match split_once_spec(text, ": "@) {
                None => (c, diags),
                Some(lv) => {
                    let step = apply_label(c, diags, lv.0, lv.1);
                    chars_scan(drop2(toks), step.0, step.1)
                },
            },
        }
    }
}

/// What the whole extraction of a section yields: the record and the
/// unknown labels met on the way, in document order.
pub open spec fn characteristics_section_spec(toks: Seq<TokenView>) -> (
    CharacteristicsView,
    Seq<Seq<char>>,
) {
    chars_scan(toks, empty_characteristics(), Seq::empty())
}

/// Extract the characteristics record of one section, whose tokens start
/// just after the recognized section header. Returns the record together
/// with the unknown labels met on the way.
pub fn characteristics_section(toks: &Vec<Token>) -> (r: (Characteristics, Vec<String>))
    ensures
        r.0@ == characteristics_section_spec(toks.deep_view()).0,
        r.1.deep_view() == characteristics_section_spec(toks.deep_view()).1,
{
    let ghost tv = toks.deep_view();
    let n = toks.len();
    let mut characteristics = Characteristics::default();
    let mut unknown_labels: Vec<String> = Vec::new();
    let mut pos: usize = 0;
    let mut done = false;
    proof {
        assert(tv.skip(0) =~= tv);
        assert(unknown_labels.deep_view() =~= Seq::<Seq<char>>::empty());
    }
    while !done && pos < n
        invariant
            tv == toks.deep_view(),
            n == tv.len(),
            pos <= n,
            characteristics_section_spec(tv) == chars_scan(
                tv.skip(pos as int),
                characteristics@,
                unknown_labels.deep_view(),
            ),
            done ==> chars_scan(tv.skip(pos as int), characteristics@, unknown_labels.deep_view())
                == (characteristics@, unknown_labels.deep_view()),
        decreases n - pos + if done {
            0int
        } else {
            1int
        },
    {
        let ghost pos0 = pos as int;
        let ghost c0 = characteristics@;
        let ghost d0 = unknown_labels.deep_view();
        proof {
            assert(tv.skip(pos0)[0] == tv[pos0]);
            assert(tv[pos0] == toks@[pos0].deep_view());
        }
        match &toks[pos] {
            Token::Markup => {
                done = true;
            },
            Token::Text(text) => {
                let ghost text_v = text@;
                match split_once_str(text.as_str(), ": ") {
                    None => {
                        done = true;
                    },
                    Some(parts) => {
                        let label = parts.0;
                        let value = parts.1;
                        let ghost lv = (label@, value@);
                        if str_eq(label.as_str(), "Código") {
                            match parse_code(value.as_str()) {
                                Ok(codes) => {
                                    characteristics.institution.code = Some(codes.0);
                                    characteristics.course.code = Some(codes.1);
                                },
                                Err(_) => {},
                            }
                        } else if str_eq(label.as_str(), "Grau") {
                            match parse_degree(value.as_str()) {
                                Ok(degree) => {
                                    characteristics.degree = Some(degree);
                                },
                                Err(_) => {},
                            }
                        } else if str_eq(label.as_str(), "Área CNAEF") {
                            match parse_cnaef_area(value.as_str()) {
                                Ok(area) => {
                                    characteristics.cnaef_area = area;
                                },
                                Err(_) => {},
                            }
                        } else if str_eq(label.as_str(), "Duração") {
                            match parse_duration(value.as_str()) {
                                Ok(duration) => {
                                    characteristics.duration = duration;
                                },
                                Err(_) => {},
                            }
                        } else if str_eq(label.as_str(), "ECTS") {
                            characteristics.ects = match parse_ects(value.as_str()) {
                                Ok(ects) => Some(ects),
                                Err(_) => None,
                            };
                        } else if str_eq(label.as_str(), "Tipo de Ensino") {
                            match parse_education_type(value.as_str()) {
                                Ok(education_type) => {
                                    characteristics.education_type = Some(education_type);
                                },
                                Err(_) => {},
                            }
                        } else if str_eq(label.as_str(), "Concurso") {
                            match parse_contest(value.as_str()) {
                                Ok(contest) => {
                                    characteristics.contest = Some(contest);
                                },
                                Err(_) => {},
                            }
                        } else {
                            unknown_labels.push(label);
                            proof {
                                assert(unknown_labels.deep_view() =~= d0.push(lv.0));
                            }
                        }
                        if n - pos >= 2 {
                            pos += 2;
                        } else {
                            pos = n;
                        }
                        proof {
                            let step = apply_label(c0, d0, lv.0, lv.1);
                            assert(characteristics@ == step.0 && unknown_labels.deep_view()
                                == step.1);
                            assert(tv.skip(pos0)[0] == TokenView::Text(text_v));
                            assert(chars_scan(tv.skip(pos0), c0, d0) == chars_scan(
                                drop2(tv.skip(pos0)),
                                step.0,
                                step.1,
                            ));
                            assert(drop2(tv.skip(pos0)) =~= tv.skip(pos as int));
                        }
                    },
                }
            },
        }
    }
    proof {
        if !done {
            assert(tv.skip(pos as int) =~= Seq::<TokenView>::empty());
        }
    }
    (characteristics, unknown_labels)
}

} // verus!
