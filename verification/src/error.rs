//! What can go wrong when a listing is read.

use vstd::prelude::*;

verus! {

/// The text of the failure for a page that is larger than the parser takes: longer, or
/// with more tags.
pub const PAGE_TOO_LARGE: &'static str = "the page is too large to be read";

/// Why a listing could not be read. The extraction itself never fails on a page that it
/// reads: a row that lacks something gives a record that lacks it.
#[derive(Debug, Clone, PartialEq, Eq)]
pub enum Error {
    /// The page could not be fetched; the text says why.
    ReqwestError(String),
    /// Anything else; the text says what.
    Others(String),
}

/// What an `Error` holds.
pub enum ErrorView {
    ReqwestError(Seq<char>),
    Others(Seq<char>),
}

impl View for Error {
    type V = ErrorView;

    open spec fn view(&self) -> ErrorView {
        match self {
            Error::ReqwestError(why) => ErrorView::ReqwestError(why@),
            Error::Others(what) => ErrorView::Others(what@),
        }
    }
}

impl DeepView for Error {
    type V = ErrorView;

    open spec fn deep_view(&self) -> ErrorView {
        self@
    }
}

impl ErrorView {
    /// The text that the error carries.
    pub open spec fn message(self) -> Seq<char> {
        match self {
            ErrorView::ReqwestError(why) => why,
            ErrorView::Others(what) => what,
        }
    }
}

impl Error {
    /// The text that the error carries, as it is shown to a reader.
    pub fn to_string(&self) -> (shown: String)
        ensures
            shown@ == self@.message(),
    {
        match self {
            Error::ReqwestError(why) => why.clone(),
            Error::Others(what) => what.clone(),
        }
    }
}

} // verus!
