//! The two request shapes and their mathematical views.

use vstd::prelude::*;

verus! {

/// Search-result page size used when a request does not name one.
pub const DEFAULT_SEARCH_LIMIT: usize = 20;

/// Crop length used when a request does not name one.
pub const DEFAULT_CROP_LENGTH: usize = 200;

/// Flat Query Model: the shape decoded from URL query parameters.
///
/// Every structured field is carried as its raw string encoding; `crop_length`
/// and `matches` are already defaulted by the query-string decoder.
#[derive(Clone, Debug)]
pub struct SearchQueryGet {
    pub q: Option<String>,
    pub offset: Option<usize>,
    pub limit: Option<usize>,
    pub attributes_to_retrieve: Option<String>,
    pub attributes_to_crop: Option<String>,
    pub crop_length: usize,
    pub attributes_to_highlight: Option<String>,
    pub filter: Option<String>,
    pub matches: bool,
    pub facets_distribution: Option<String>,
}

/// Mathematical view of a [`SearchQueryGet`].
#[verifier::ext_equal]
pub struct FlatQueryView {
    pub q: Option<Seq<char>>,
    pub offset: Option<int>,
    pub limit: Option<int>,
    pub attributes_to_retrieve: Option<Seq<char>>,
    pub attributes_to_crop: Option<Seq<char>>,
    pub crop_length: int,
    pub attributes_to_highlight: Option<Seq<char>>,
    pub filter: Option<Seq<char>>,
    pub matches: bool,
    pub facets_distribution: Option<Seq<char>>,
}

pub open spec fn opt_int_view(o: Option<usize>) -> Option<int> {
    match o {
        Option::None => Option::None,
        Option::Some(v) => Option::Some(v as int),
    }
}

impl View for SearchQueryGet {
    type V = FlatQueryView;

    open spec fn view(&self) -> FlatQueryView {
        FlatQueryView {
            q: self.q.deep_view(),
            offset: opt_int_view(self.offset),
            limit: opt_int_view(self.limit),
            attributes_to_retrieve: self.attributes_to_retrieve.deep_view(),
            attributes_to_crop: self.attributes_to_crop.deep_view(),
            crop_length: self.crop_length as int,
            attributes_to_highlight: self.attributes_to_highlight.deep_view(),
            filter: self.filter.deep_view(),
            matches: self.matches,
            facets_distribution: self.facets_distribution.deep_view(),
        }
    }
}

/// A search filter: either the text of a structured (JSON) value, or free
/// text taken verbatim.
///
/// The structured variant carries the source text of the value; holding the
/// text rather than a parsed tree keeps the model plain, and the text can be
/// re-parsed without failure wherever the structured value itself is needed.
#[derive(Clone, Debug, PartialEq, Eq)]
pub enum Filter {
    Structured(String),
    Text(String),
}

/// Mathematical view of a [`Filter`].
#[verifier::ext_equal]
pub enum FilterView {
    Structured(Seq<char>),
    Text(Seq<char>),
}

impl View for Filter {
    type V = FilterView;

    open spec fn view(&self) -> FilterView {
        match self {
            Filter::Structured(s) => FilterView::Structured(s@),
            Filter::Text(s) => FilterView::Text(s@),
        }
    }
}

impl DeepView for Filter {
    type V = FilterView;

    open spec fn deep_view(&self) -> FilterView {
        self.view()
    }
}

/// Canonical Query Model: the fully-typed, defaulted request shape consumed
/// by the search engine. `limit`, `crop_length` and `matches` are always
/// present; the list fields are structured lists; `filter` is a tagged value.
#[derive(Clone, Debug, PartialEq, Eq)]
pub struct SearchQuery {
    pub q: Option<String>,
    pub offset: Option<usize>,
    pub limit: usize,
    pub attributes_to_retrieve: Option<Vec<String>>,
    pub attributes_to_crop: Option<Vec<String>>,
    pub crop_length: usize,
    pub attributes_to_highlight: Option<Vec<String>>,
    pub filter: Option<Filter>,
    pub matches: bool,
    pub facets_distribution: Option<Vec<String>>,
}

/// Mathematical view of a [`SearchQuery`].
#[verifier::ext_equal]
pub struct QueryView {
    pub q: Option<Seq<char>>,
    pub offset: Option<int>,
    pub limit: int,
    pub attributes_to_retrieve: Option<Seq<Seq<char>>>,
    pub attributes_to_crop: Option<Seq<Seq<char>>>,
    pub crop_length: int,
    pub attributes_to_highlight: Option<Seq<Seq<char>>>,
    pub filter: Option<FilterView>,
    pub matches: bool,
    pub facets_distribution: Option<Seq<Seq<char>>>,
}

/// Mathematical view of the typed fields a JSON request body carries: every
/// field optional, none yet defaulted.
#[verifier::ext_equal]
pub struct BodyQueryView {
    pub q: Option<Seq<char>>,
    pub offset: Option<int>,
    pub limit: Option<int>,
    pub attributes_to_retrieve: Option<Seq<Seq<char>>>,
    pub attributes_to_crop: Option<Seq<Seq<char>>>,
    pub crop_length: Option<int>,
    pub attributes_to_highlight: Option<Seq<Seq<char>>>,
    pub filter: Option<FilterView>,
    pub matches: Option<bool>,
    pub facets_distribution: Option<Seq<Seq<char>>>,
}

impl View for SearchQuery {
    type V = QueryView;

    open spec fn view(&self) -> QueryView {
        QueryView {
            q: self.q.deep_view(),
            offset: opt_int_view(self.offset),
            limit: self.limit as int,
            attributes_to_retrieve: self.attributes_to_retrieve.deep_view(),
            attributes_to_crop: self.attributes_to_crop.deep_view(),
            crop_length: self.crop_length as int,
            attributes_to_highlight: self.attributes_to_highlight.deep_view(),
            filter: self.filter.deep_view(),
            matches: self.matches,
            facets_distribution: self.facets_distribution.deep_view(),
        }
    }
}

} // verus!
