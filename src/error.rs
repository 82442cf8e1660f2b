use vstd::prelude::*;

verus! {

/// What went wrong while reading a scene description.
#[derive(Debug)]
pub enum ParseError {
    /// A directive keyword that the file kind does not know; holds the keyword.
    UnknownToken(String),
    /// Every other failure, with a short description.
    GeneralError(String),
}

/// The abstract value of a `ParseError`: the detail text of a general error is
/// left out, the keyword of an unknown token is kept.
pub enum ErrorView {
    UnknownToken(Seq<char>),
    General,
}

impl View for ParseError {
    type V = ErrorView;

    open spec fn view(&self) -> ErrorView {
        match self {
            ParseError::UnknownToken(t) => ErrorView::UnknownToken(t@),
            ParseError::GeneralError(_) => ErrorView::General,
        }
    }
}

} // verus!
