//! The degree a course confers.

use vstd::prelude::*;

verus! {

/// A degree, kept as the raw printed value ("Licenciatura").
#[derive(Debug, Clone, PartialEq)]
pub struct Degree(pub String);

impl View for Degree {
    type V = Seq<char>;

    open spec fn view(&self) -> Seq<char> {
        self.0@
    }
}

impl DeepView for Degree {
    type V = Seq<char>;

    open spec fn deep_view(&self) -> Seq<char> {
        self.0@
    }
}

} // verus!
