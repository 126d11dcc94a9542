//! Client-input errors raised while a request is decoded and normalized.

use vstd::prelude::*;

verus! {

/// The list-valued sub-fields whose string encodings are decoded strictly.
#[derive(Clone, Copy, Debug, PartialEq, Eq, Structural)]
pub enum QueryField {
    AttributesToRetrieve,
    AttributesToCrop,
    AttributesToHighlight,
    FacetsDistribution,
}

/// Why a search request was rejected before it reached the engine.
#[derive(Clone, Debug, PartialEq, Eq)]
pub enum SearchRequestError {
    /// A query-string parameter outside the flat field set.
    UnknownField(String),
    /// A query-string parameter given twice.
    DuplicateField(String),
    /// A query-string parameter whose value does not decode at its type.
    MalformedValue(String),
    /// A list-valued sub-field whose string is not a JSON array of strings.
    StructuredDecode(QueryField),
}

/// Mathematical view of a [`SearchRequestError`].
#[verifier::ext_equal]
pub enum RequestErrorView {
    UnknownField(Seq<char>),
    DuplicateField(Seq<char>),
    MalformedValue(Seq<char>),
    StructuredDecode(QueryField),
}

impl View for SearchRequestError {
    type V = RequestErrorView;

    open spec fn view(&self) -> RequestErrorView {
        match self {
            SearchRequestError::UnknownField(n) => RequestErrorView::UnknownField(n@),
            SearchRequestError::DuplicateField(n) => RequestErrorView::DuplicateField(n@),
            SearchRequestError::MalformedValue(n) => RequestErrorView::MalformedValue(n@),
            SearchRequestError::StructuredDecode(f) => RequestErrorView::StructuredDecode(*f),
        }
    }
}

} // verus!
