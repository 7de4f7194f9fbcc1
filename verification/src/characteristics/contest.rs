//! The admission contest a course belongs to.

use vstd::prelude::*;

verus! {

/// A contest, kept as the raw printed value.
#[derive(Debug, Clone, PartialEq)]
pub struct Contest(pub String);

impl View for Contest {
    type V = Seq<char>;

    open spec fn view(&self) -> Seq<char> {
        self.0@
    }
}

impl DeepView for Contest {
    type V = Seq<char>;

    open spec fn deep_view(&self) -> Seq<char> {
        self.0@
    }
}

} // verus!
