//! The normalization guarantees, stated and proved once over the views the
//! executable contracts use.

use vstd::prelude::*;

use crate::error::QueryField;
use crate::json::is_valid_json;
use crate::json::str_list_of;
use crate::model::BodyQueryView;
use crate::model::FilterView;
use crate::model::FlatQueryView;
use crate::model::DEFAULT_CROP_LENGTH;
use crate::model::DEFAULT_SEARCH_LIMIT;
use crate::normalize::body_canonical;
use crate::normalize::canonical_of;
use crate::normalize::decoded_list;
use crate::normalize::filter_of;
use crate::normalize::first_bad_list;
use crate::normalize::lists_ok;
use crate::query_string::flat_of;
use crate::query_string::lookup_field;
use crate::query_string::FieldId;

verus! {

/// A flat request that does not name `limit` normalizes to the system
/// default limit.
pub proof fn lemma_default_limit(fv: FlatQueryView)
    requires
        fv.limit is None,
    ensures
        canonical_of(fv).limit == DEFAULT_SEARCH_LIMIT as int,
{
}

/// A query string that gives neither `cropLength` nor `matches` decodes to
/// the documented defaults, and normalization carries both through.
pub proof fn lemma_default_crop_and_matches(pv: Seq<(Seq<char>, Seq<char>)>)
    requires
        lookup_field(pv, FieldId::CropLength) is None,
        lookup_field(pv, FieldId::Matches) is None,
    ensures
        flat_of(pv).crop_length == DEFAULT_CROP_LENGTH as int,
        flat_of(pv).matches == false,
        canonical_of(flat_of(pv)).crop_length == DEFAULT_CROP_LENGTH as int,
        canonical_of(flat_of(pv)).matches == false,
{
}

/// A filter string that is valid JSON normalizes to the structured filter
/// carrying exactly that text; the filter is never dropped.
pub proof fn lemma_filter_structured(fv: FlatQueryView, s: Seq<char>)
    requires
        fv.filter == Some(s),
        is_valid_json(s),
    ensures
        canonical_of(fv).filter == Some(FilterView::Structured(s)),
{
}

/// A filter string that is not valid JSON never fails: it normalizes to a
/// text filter wrapping the original string verbatim.
pub proof fn lemma_filter_text_fallback(fv: FlatQueryView, s: Seq<char>)
    requires
        fv.filter == Some(s),
        !is_valid_json(s),
    ensures
        canonical_of(fv).filter == Some(FilterView::Text(s)),
{
}

/// An `attributes_to_retrieve` string that is not a JSON string list makes
/// normalization fail, with the structured-decode error naming that field.
pub proof fn lemma_retrieve_decode_error(fv: FlatQueryView, s: Seq<char>)
    requires
        fv.attributes_to_retrieve == Some(s),
        str_list_of(s) is None,
    ensures
        !lists_ok(fv),
        first_bad_list(fv) == Some(QueryField::AttributesToRetrieve),
{
}

/// Transport agreement: input that is semantically equivalent through the
/// flat query-string shape and through the typed body shape yields the same
/// canonical query in every overlapping field.
pub proof fn lemma_transport_agreement(fv: FlatQueryView, b: BodyQueryView)
    requires
        lists_ok(fv),
        fv.q == b.q,
        fv.offset == b.offset,
        fv.limit == b.limit,
        decoded_list(fv.attributes_to_retrieve) == b.attributes_to_retrieve,
        decoded_list(fv.attributes_to_crop) == b.attributes_to_crop,
        (match b.crop_length {
            Some(c) => fv.crop_length == c,
            None => fv.crop_length == DEFAULT_CROP_LENGTH as int,
        }),
        decoded_list(fv.attributes_to_highlight) == b.attributes_to_highlight,
        (match (fv.filter, b.filter) {
            (Option::None, Option::None) => true,
            (Option::Some(s), Option::Some(f)) => f == filter_of(s),
            _ => false,
        }),
        (match b.matches {
            Some(m) => fv.matches == m,
            None => fv.matches == false,
        }),
        decoded_list(fv.facets_distribution) == b.facets_distribution,
    ensures
        canonical_of(fv) == body_canonical(b),
{
    assert(canonical_of(fv) =~= body_canonical(b));
}

} // verus!
