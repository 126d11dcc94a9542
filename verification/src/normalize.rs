//! The Query Normalizer: flat shape to canonical shape.

use vstd::prelude::*;

use crate::error::QueryField;
use crate::error::RequestErrorView;
use crate::error::SearchRequestError;
use crate::json::is_valid_json;
use crate::json::json_value_parses;
use crate::json::parse_string_list;
use crate::json::str_list_of;
use crate::model::opt_int_view;
use crate::model::BodyQueryView;
use crate::model::Filter;
use crate::model::FilterView;
use crate::model::FlatQueryView;
use crate::model::QueryView;
use crate::model::SearchQuery;
use crate::model::SearchQueryGet;
use crate::model::DEFAULT_CROP_LENGTH;
use crate::model::DEFAULT_SEARCH_LIMIT;

verus! {

/// Whether one optional list-encoding string decodes (absence decodes).
pub open spec fn list_field_ok(f: Option<Seq<char>>) -> bool {
    f matches Some(s) ==> str_list_of(s) is Some
}

/// Whether every list-valued sub-field of a flat request decodes.
pub open spec fn lists_ok(fv: FlatQueryView) -> bool {
    &&& list_field_ok(fv.attributes_to_retrieve)
    &&& list_field_ok(fv.attributes_to_crop)
    &&& list_field_ok(fv.attributes_to_highlight)
    &&& list_field_ok(fv.facets_distribution)
}

/// The first list-valued sub-field, in field order, whose string does not
/// decode; `None` where all decode.
pub open spec fn first_bad_list(fv: FlatQueryView) -> Option<QueryField> {
    if !list_field_ok(fv.attributes_to_retrieve) {
        Some(QueryField::AttributesToRetrieve)
    } else if !list_field_ok(fv.attributes_to_crop) {
        Some(QueryField::AttributesToCrop)
    } else if !list_field_ok(fv.attributes_to_highlight) {
        Some(QueryField::AttributesToHighlight)
    } else if !list_field_ok(fv.facets_distribution) {
        Some(QueryField::FacetsDistribution)
    } else {
        None
    }
}

/// The decoded list carried by one optional list-encoding string.
pub open spec fn decoded_list(f: Option<Seq<char>>) -> Option<Seq<Seq<char>>>
    recommends
        list_field_ok(f),
{
    match f {
        None => None,
        Some(s) => str_list_of(s),
    }
}

/// The lenient two-stage reading of one filter string: structured where the
/// text is valid JSON, verbatim text otherwise. It never fails.
pub open spec fn filter_of(s: Seq<char>) -> FilterView {
    if is_valid_json(s) {
        FilterView::Structured(s)
    } else {
        FilterView::Text(s)
    }
}

/// The canonical view a valid flat request normalizes to.
pub open spec fn canonical_of(fv: FlatQueryView) -> QueryView
    recommends
        lists_ok(fv),
{
    QueryView {
        q: fv.q,
        offset: fv.offset,
        limit: match fv.limit {
            None => DEFAULT_SEARCH_LIMIT as int,
            Some(l) => l,
        },
        attributes_to_retrieve: decoded_list(fv.attributes_to_retrieve),
        attributes_to_crop: decoded_list(fv.attributes_to_crop),
        crop_length: fv.crop_length,
        attributes_to_highlight: decoded_list(fv.attributes_to_highlight),
        filter: match fv.filter {
            None => None,
            Some(s) => Some(filter_of(s)),
        },
        matches: fv.matches,
        facets_distribution: decoded_list(fv.facets_distribution),
    }
}

/// A well-formed filter's structured text is valid JSON.
pub open spec fn filter_wf(f: FilterView) -> bool {
    f matches FilterView::Structured(s) ==> is_valid_json(s)
}

/// The canonical shape's invariant: a structured filter holds valid JSON.
pub open spec fn query_wf(qv: QueryView) -> bool {
    qv.filter matches Some(f) ==> filter_wf(f)
}

impl Filter {
    /// Read a filter string leniently: structured where it is valid JSON,
    /// verbatim text otherwise. This stage never rejects its input.
    pub fn from_text(s: String) -> (r: Filter)
        ensures
            r@ == filter_of(s@),
            filter_wf(r@),
    {
        if json_value_parses(&s) {
            Filter::Structured(s)
        } else {
            Filter::Text(s)
        }
    }
}

/// The canonical view that the typed fields of a JSON body assemble to: the
/// richer shape needs no normalization, only the documented defaults for
/// `limit`, `crop_length` and `matches`.
pub open spec fn body_canonical(b: BodyQueryView) -> QueryView {
    QueryView {
        q: b.q,
        offset: b.offset,
        limit: match b.limit {
            None => DEFAULT_SEARCH_LIMIT as int,
            Some(l) => l,
        },
        attributes_to_retrieve: b.attributes_to_retrieve,
        attributes_to_crop: b.attributes_to_crop,
        crop_length: match b.crop_length {
            None => DEFAULT_CROP_LENGTH as int,
            Some(c) => c,
        },
        attributes_to_highlight: b.attributes_to_highlight,
        filter: b.filter,
        matches: match b.matches {
            None => false,
            Some(m) => m,
        },
        facets_distribution: b.facets_distribution,
    }
}

/// The view of a full set of typed body fields.
pub open spec fn parts_view(
    q: Option<String>,
    offset: Option<usize>,
    limit: Option<usize>,
    attributes_to_retrieve: Option<Vec<String>>,
    attributes_to_crop: Option<Vec<String>>,
    crop_length: Option<usize>,
    attributes_to_highlight: Option<Vec<String>>,
    filter: Option<Filter>,
    matches: Option<bool>,
    facets_distribution: Option<Vec<String>>,
) -> BodyQueryView {
    BodyQueryView {
        q: q.deep_view(),
        offset: opt_int_view(offset),
        limit: opt_int_view(limit),
        attributes_to_retrieve: attributes_to_retrieve.deep_view(),
        attributes_to_crop: attributes_to_crop.deep_view(),
        crop_length: opt_int_view(crop_length),
        attributes_to_highlight: attributes_to_highlight.deep_view(),
        filter: filter.deep_view(),
        matches,
        facets_distribution: facets_distribution.deep_view(),
    }
}

/// Decode one optional list-encoding field, or report it as the offender.
fn decode_list_field(f: Option<String>, field: QueryField) -> (r: Result<
    Option<Vec<String>>,
    SearchRequestError,
>)
    ensures
        r is Ok <==> list_field_ok(f.deep_view()),
        r matches Ok(v) ==> v.deep_view() == decoded_list(f.deep_view()),
        r matches Err(e) ==> e@ == RequestErrorView::StructuredDecode(field),
{
    match f {
        None => Ok(None),
        Some(s) => match parse_string_list(&s) {
            Some(v) => Ok(Some(v)),
            None => Err(SearchRequestError::StructuredDecode(field)),
        },
    }
}

impl SearchQuery {
    /// The Query Normalizer: convert a flat request into the canonical shape.
    ///
    /// Succeeds exactly when every list-valued sub-field decodes; the error
    /// names the first field, in field order, whose string does not. The
    /// filter never causes failure: it degrades to verbatim text.
    pub fn try_from(flat: SearchQueryGet) -> (r: Result<SearchQuery, SearchRequestError>)
        ensures
            r is Ok <==> lists_ok(flat@),
            r matches Ok(c) ==> c@ == canonical_of(flat@),
            r matches Ok(c) ==> query_wf(c@),
            r matches Err(e) ==> match first_bad_list(flat@) {
                Some(field) => e@ == RequestErrorView::StructuredDecode(field),
                None => false,
            },
    {
        let attributes_to_retrieve = match decode_list_field(
            flat.attributes_to_retrieve,
            QueryField::AttributesToRetrieve,
        ) {
            Ok(v) => v,
            Err(e) => return Err(e),
        };
        let attributes_to_crop = match decode_list_field(
            flat.attributes_to_crop,
            QueryField::AttributesToCrop,
        ) {
            Ok(v) => v,
            Err(e) => return Err(e),
        };
        let attributes_to_highlight = match decode_list_field(
            flat.attributes_to_highlight,
            QueryField::AttributesToHighlight,
        ) {
            Ok(v) => v,
            Err(e) => return Err(e),
        };
        let facets_distribution = match decode_list_field(
            flat.facets_distribution,
            QueryField::FacetsDistribution,
        ) {
            Ok(v) => v,
            Err(e) => return Err(e),
        };

        let filter = match flat.filter {
            Some(f) => Some(Filter::from_text(f)),
            None => None,
        };

        let limit = match flat.limit {
            Some(l) => l,
            None => DEFAULT_SEARCH_LIMIT,
        };

        Ok(SearchQuery {
            q: flat.q,
            offset: flat.offset,
            limit,
            attributes_to_retrieve,
            attributes_to_crop,
            crop_length: flat.crop_length,
            attributes_to_highlight,
            filter,
            matches: flat.matches,
            facets_distribution,
        })
    }

    /// The JSON-body path: assemble the canonical shape from typed fields,
    /// filling the documented defaults for the absent ones. The richer shape
    /// needs no other normalization, so this cannot fail.
    pub fn from_parts(
        q: Option<String>,
        offset: Option<usize>,
        limit: Option<usize>,
        attributes_to_retrieve: Option<Vec<String>>,
        attributes_to_crop: Option<Vec<String>>,
        crop_length: Option<usize>,
        attributes_to_highlight: Option<Vec<String>>,
        filter: Option<Filter>,
        matches: Option<bool>,
        facets_distribution: Option<Vec<String>>,
    ) -> (r: SearchQuery)
        ensures
            r@ == body_canonical(
                parts_view(
                    q,
                    offset,
                    limit,
                    attributes_to_retrieve,
                    attributes_to_crop,
                    crop_length,
                    attributes_to_highlight,
                    filter,
                    matches,
                    facets_distribution,
                ),
            ),
    {
        let r = SearchQuery {
            q,
            offset,
            limit: match limit {
                Some(l) => l,
                None => DEFAULT_SEARCH_LIMIT,
            },
            attributes_to_retrieve,
            attributes_to_crop,
            crop_length: match crop_length {
                Some(c) => c,
                None => DEFAULT_CROP_LENGTH,
            },
            attributes_to_highlight,
            filter,
            matches: match matches {
                Some(m) => m,
                None => false,
            },
            facets_distribution,
        };
        r
    }
}

} // verus!
