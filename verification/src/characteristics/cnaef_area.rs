//! The CNAEF study-area classification of a course.

use vstd::prelude::*;

verus! {

/// A CNAEF area code, the digits before the first space of the value.
#[derive(Debug, Clone, PartialEq)]
pub struct Code(pub String);

impl View for Code {
    type V = Seq<char>;

    open spec fn view(&self) -> Seq<char> {
        self.0@
    }
}

impl DeepView for Code {
    type V = Seq<char>;

    open spec fn deep_view(&self) -> Seq<char> {
        self.0@
    }
}

/// A CNAEF area name, the rest of the value.
#[derive(Debug, Clone, PartialEq)]
pub struct Name(pub String);

impl View for Name {
    type V = Seq<char>;

    open spec fn view(&self) -> Seq<char> {
        self.0@
    }
}

impl DeepView for Name {
    type V = Seq<char>;

    open spec fn deep_view(&self) -> Seq<char> {
        self.0@
    }
}

/// A CNAEF study area: a code and a name, parsed together.
#[derive(Debug, Clone, PartialEq)]
pub struct CnaefArea {
    pub code: Option<Code>,
    pub name: Option<Name>,
}

/// The mathematical image of a [`CnaefArea`].
pub ghost struct CnaefAreaView {
    pub code: Option<Seq<char>>,
    pub name: Option<Seq<char>>,
}

impl View for CnaefArea {
    type V = CnaefAreaView;

    open spec fn view(&self) -> CnaefAreaView {
        CnaefAreaView { code: self.code.deep_view(), name: self.name.deep_view() }
    }
}

impl DeepView for CnaefArea {
    type V = CnaefAreaView;

    open spec fn deep_view(&self) -> CnaefAreaView {
        self.view()
    }
}

/// An area with nothing observed yet.
pub open spec fn empty_cnaef_area() -> CnaefAreaView {
    CnaefAreaView { code: None, name: None }
}

impl Default for CnaefArea {
    fn default() -> (r: Self)
        ensures
            r@ == empty_cnaef_area(),
    {
        CnaefArea { code: None, name: None }
    }
}

} // verus!
