//! The token abstraction the extractors consume.
//!
//! A document section is handed to an extractor as a finite, forward-only
//! sequence of tokens. Only the text / non-text distinction matters to the
//! grammar, so the interface is narrowed to this tagged union and the
//! extractors stay independent of any document-tree representation.

use vstd::prelude::*;

verus! {

/// One fragment of a document section: a run of text, or any other markup
/// node (a line break, an element), whose content the extractors never
/// inspect.
#[derive(Debug, Clone, PartialEq)]
pub enum Token {
    Text(String),
    Markup,
}

/// The mathematical image of a token.
pub ghost enum TokenView {
    Text(Seq<char>),
    Markup,
}

impl View for Token {
    type V = TokenView;

    open spec fn view(&self) -> TokenView {
        match self {
            Token::Text(s) => TokenView::Text(s@),
            Token::Markup => TokenView::Markup,
        }
    }
}

impl DeepView for Token {
    type V = TokenView;

    open spec fn deep_view(&self) -> TokenView {
        self.view()
    }
}

/// The current token and the separator after it, both consumed. The source
/// layout always places one separating token between two entries, so the
/// extractors advance by two after handling a text token.
pub open spec fn drop2(toks: Seq<TokenView>) -> Seq<TokenView> {
    if toks.len() >= 2 {
        toks.skip(2)
    } else {
        Seq::empty()
    }
}

} // verus!
