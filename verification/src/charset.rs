//! The Content-Type correction applied to fetched pages.
//!
//! The source pages declare a bare `text/html` content type but are
//! actually encoded in windows-1252. The decision of what to rewrite is
//! made here; performing the rewrite on a live response stays with the
//! caller.

use vstd::prelude::*;

use crate::text::str_eq;

verus! {

/// What a response's Content-Type header value should become: a bare
/// `text/html` is tagged with the windows-1252 charset, any other value is
/// left alone.
pub open spec fn corrected_content_type_spec(value: Seq<char>) -> Option<Seq<char>> {
    if value == "text/html"@ {
        Some("text/html; charset=windows-1252"@)
    } else {
        None
    }
}

/// Decide the replacement for one Content-Type header value.
pub fn corrected_content_type(value: &str) -> (r: Option<&'static str>)
    ensures
        match r {
            Some(v) => corrected_content_type_spec(value@) == Some(v@),
            None => corrected_content_type_spec(value@) is None,
        },
{
    if str_eq(value, "text/html") {
        Some("text/html; charset=windows-1252")
    } else {
        None
    }
}

} // verus!
