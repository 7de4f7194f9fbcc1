//! The nominal duration of a course.

use vstd::prelude::*;

verus! {

/// A duration unit, the word after the amount ("anos", "semestres").
#[derive(Debug, Clone, PartialEq)]
pub struct Unit(pub String);

impl View for Unit {
    type V = Seq<char>;

    open spec fn view(&self) -> Seq<char> {
        self.0@
    }
}

impl DeepView for Unit {
    type V = Seq<char>;

    open spec fn deep_view(&self) -> Seq<char> {
        self.0@
    }
}

/// A duration amount: an unsigned eight-bit count of units.
#[derive(Debug, Clone, Copy, PartialEq, Eq)]
pub struct Ammount(pub u8);

impl View for Ammount {
    type V = u8;

    open spec fn view(&self) -> u8 {
        self.0
    }
}

impl DeepView for Ammount {
    type V = u8;

    open spec fn deep_view(&self) -> u8 {
        self.0
    }
}

/// A course duration: an amount of units and the unit itself.
#[derive(Debug, Clone, PartialEq)]
pub struct Duration {
    pub ammount: Option<Ammount>,
    pub unit: Option<Unit>,
}

/// The mathematical image of a [`Duration`].
pub ghost struct DurationView {
    pub ammount: Option<u8>,
    pub unit: Option<Seq<char>>,
}

impl View for Duration {
    type V = DurationView;

    open spec fn view(&self) -> DurationView {
        DurationView { ammount: self.ammount.deep_view(), unit: self.unit.deep_view() }
    }
}

impl DeepView for Duration {
    type V = DurationView;

    open spec fn deep_view(&self) -> DurationView {
        self.view()
    }
}

/// A duration with nothing observed yet.
pub open spec fn empty_duration() -> DurationView {
    DurationView { ammount: None, unit: None }
}

impl Default for Duration {
    fn default() -> (r: Self)
        ensures
            r@ == empty_duration(),
    {
        Duration { ammount: None, unit: None }
    }
}

} // verus!
