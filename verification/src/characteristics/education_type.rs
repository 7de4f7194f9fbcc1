//! The education type of a course.

use vstd::prelude::*;

verus! {

/// An education type, kept as the raw printed value.
#[derive(Debug, Clone, PartialEq)]
pub struct EducationType(pub String);

impl View for EducationType {
    type V = Seq<char>;

    open spec fn view(&self) -> Seq<char> {
        self.0@
    }
}

impl DeepView for EducationType {
    type V = Seq<char>;

    open spec fn deep_view(&self) -> Seq<char> {
        self.0@
    }
}

} // verus!
