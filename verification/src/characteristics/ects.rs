//! The credit count of a course.

use vstd::prelude::*;

verus! {

/// An ECTS credit count: an unsigned sixteen-bit integer.
#[derive(Debug, Clone, Copy, PartialEq, Eq)]
pub struct Ects(pub u16);

impl View for Ects {
    type V = u16;

    open spec fn view(&self) -> u16 {
        self.0
    }
}

impl DeepView for Ects {
    type V = u16;

    open spec fn deep_view(&self) -> u16 {
        self.0
    }
}

} // verus!
