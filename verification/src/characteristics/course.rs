//! The course identity of a characteristics record.

use vstd::prelude::*;

verus! {

/// A course code, the part of a code pair after the slash.
#[derive(Debug, Clone, PartialEq)]
pub struct Code(pub String);

impl View for Code {
    type V = Seq<char>;

    open spec fn view(&self) -> Seq<char> {
        self.0@
    }
}

impl DeepView for Code {
    type V = Seq<char>;

    open spec fn deep_view(&self) -> Seq<char> {
        self.0@
    }
}

/// A course name, as printed in the page heading.
#[derive(Debug, Clone, PartialEq)]
pub struct Name(pub String);

impl View for Name {
    type V = Seq<char>;

    open spec fn view(&self) -> Seq<char> {
        self.0@
    }
}

impl DeepView for Name {
    type V = Seq<char>;

    open spec fn deep_view(&self) -> Seq<char> {
        self.0@
    }
}

/// A course: its code and its name, each observed independently.
#[derive(Debug, Clone, PartialEq)]
pub struct Course {
    pub code: Option<Code>,
    pub name: Option<Name>,
}

/// The mathematical image of a [`Course`].
pub ghost struct CourseView {
    pub code: Option<Seq<char>>,
    pub name: Option<Seq<char>>,
}

impl View for Course {
    type V = CourseView;

    open spec fn view(&self) -> CourseView {
        CourseView { code: self.code.deep_view(), name: self.name.deep_view() }
    }
}

impl DeepView for Course {
    type V = CourseView;

    open spec fn deep_view(&self) -> CourseView {
        self.view()
    }
}

/// A course with nothing observed yet.
pub open spec fn empty_course() -> CourseView {
    CourseView { code: None, name: None }
}

impl Default for Course {
    fn default() -> (r: Self)
        ensures
            r@ == empty_course(),
    {
        Course { code: None, name: None }
    }
}

} // verus!
