//! The computational core of the two request handlers.

use vstd::prelude::*;

use crate::error::RequestErrorView;
use crate::error::SearchRequestError;
use crate::model::SearchQuery;
use crate::normalize::canonical_of;
use crate::normalize::first_bad_list;
use crate::normalize::lists_ok;
use crate::normalize::query_wf;
use crate::query_string::decode_query_pairs;
use crate::query_string::first_offense;
use crate::query_string::flat_of;

verus! {

/// The query-string path of the search handler: decode the flat shape
/// strictly, then normalize it. Succeeds exactly when the query string
/// decodes and every list-valued sub-field parses. Any query-string shape
/// error is reported before structured decoding begins; within each stage
/// the first offense in request order wins.
pub fn canonical_from_query_pairs(pairs: &Vec<(String, String)>) -> (r: Result<
    SearchQuery,
    SearchRequestError,
>)
    ensures
        r is Ok <==> (first_offense(pairs.deep_view()) is None && lists_ok(
            flat_of(pairs.deep_view()),
        )),
        r matches Ok(c) ==> c@ == canonical_of(flat_of(pairs.deep_view())),
        r matches Ok(c) ==> query_wf(c@),
        r matches Err(e) ==> (match first_offense(pairs.deep_view()) {
            Some(off) => e@ == off,
            None => match first_bad_list(flat_of(pairs.deep_view())) {
                Some(f) => e@ == RequestErrorView::StructuredDecode(f),
                None => false,
            },
        }),
{
    let flat = match decode_query_pairs(pairs) {
        Ok(f) => f,
        Err(e) => return Err(e),
    };
    SearchQuery::try_from(flat)
}

/// The system-wide result policy asserted at the engine boundary: a search
/// result must report its hit count as non-exhaustive. Handlers check this
/// in non-production builds; the engine is responsible for satisfying it.
pub fn hit_count_is_non_exhaustive(exhaustive_nb_hits: bool) -> (r: bool)
    ensures
        r == !exhaustive_nb_hits,
{
    !exhaustive_nb_hits
}

} // verus!
