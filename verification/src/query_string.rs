//! Strict decoding of URL query parameters into the flat request shape.
//!
//! The decoder works over already percent-decoded name/value pairs. It keeps
//! to the enumerated field table: any name outside it, any name given twice,
//! and any value that does not decode at its field's type reject the request.

use vstd::prelude::*;

use crate::digits::digits_value;
use crate::digits::parse_usize;
use crate::digits::usize_decodes;
use crate::error::RequestErrorView;
use crate::error::SearchRequestError;
use crate::model::FlatQueryView;
use crate::model::SearchQueryGet;
use crate::model::DEFAULT_CROP_LENGTH;

verus! {

/// The enumerated field table of the flat shape, one entry per parameter.
#[derive(Clone, Copy, Debug, PartialEq, Eq, Structural)]
pub enum FieldId {
    Q,
    Offset,
    Limit,
    AttributesToRetrieve,
    AttributesToCrop,
    CropLength,
    AttributesToHighlight,
    Filter,
    Matches,
    FacetsDistribution,
}

/// The table entry a parameter name belongs to, or `None` for a name outside
/// the flat field set.
pub open spec fn spec_field_of(name: Seq<char>) -> Option<FieldId> {
    if name == "q"@ {
        Some(FieldId::Q)
    } else if name == "offset"@ {
        Some(FieldId::Offset)
    } else if name == "limit"@ {
        Some(FieldId::Limit)
    } else if name == "attributesToRetrieve"@ {
        Some(FieldId::AttributesToRetrieve)
    } else if name == "attributesToCrop"@ {
        Some(FieldId::AttributesToCrop)
    } else if name == "cropLength"@ {
        Some(FieldId::CropLength)
    } else if name == "attributesToHighlight"@ {
        Some(FieldId::AttributesToHighlight)
    } else if name == "filter"@ {
        Some(FieldId::Filter)
    } else if name == "matches"@ {
        Some(FieldId::Matches)
    } else if name == "facetsDistribution"@ {
        Some(FieldId::FacetsDistribution)
    } else {
        None
    }
}

fn field_of(name: &String) -> (r: Option<FieldId>)
    ensures
        r == spec_field_of(name@),
{
    if *name == "q".to_owned() {
        Some(FieldId::Q)
    } else if *name == "offset".to_owned() {
        Some(FieldId::Offset)
    } else if *name == "limit".to_owned() {
        Some(FieldId::Limit)
    } else if *name == "attributesToRetrieve".to_owned() {
        Some(FieldId::AttributesToRetrieve)
    } else if *name == "attributesToCrop".to_owned() {
        Some(FieldId::AttributesToCrop)
    } else if *name == "cropLength".to_owned() {
        Some(FieldId::CropLength)
    } else if *name == "attributesToHighlight".to_owned() {
        Some(FieldId::AttributesToHighlight)
    } else if *name == "filter".to_owned() {
        Some(FieldId::Filter)
    } else if *name == "matches".to_owned() {
        Some(FieldId::Matches)
    } else if *name == "facetsDistribution".to_owned() {
        Some(FieldId::FacetsDistribution)
    } else {
        None
    }
}

/// Whether a raw value decodes at its field's type: digits for the numeric
/// fields, `true`/`false` for the boolean one, any text for the rest.
pub open spec fn value_ok(f: FieldId, v: Seq<char>) -> bool {
    match f {
        FieldId::Offset => usize_decodes(v),
        FieldId::Limit => usize_decodes(v),
        FieldId::CropLength => usize_decodes(v),
        FieldId::Matches => v == "true"@ || v == "false"@,
        _ => true,
    }
}

/// The raw value of the first pair whose name belongs to field `f`.
pub open spec fn lookup_field(pv: Seq<(Seq<char>, Seq<char>)>, f: FieldId) -> Option<Seq<char>>
    decreases pv.len(),
{
    if pv.len() == 0 {
        None
    } else if spec_field_of(pv[0].0) == Some(f) {
        Some(pv[0].1)
    } else {
        lookup_field(pv.drop_first(), f)
    }
}

/// How pair `i` offends, given the pairs before it: an unknown name, a name
/// whose field was already given, or a value malformed at the field's type.
pub open spec fn pair_offense(pv: Seq<(Seq<char>, Seq<char>)>, i: int) -> Option<RequestErrorView>
    recommends
        0 <= i < pv.len(),
{
    let name = pv[i].0;
    match spec_field_of(name) {
        None => Some(RequestErrorView::UnknownField(name)),
        Some(f) => if exists|j: int| 0 <= j < i && spec_field_of(#[trigger] pv[j].0) == Some(f) {
            Some(RequestErrorView::DuplicateField(name))
        } else if !value_ok(f, pv[i].1) {
            Some(RequestErrorView::MalformedValue(name))
        } else {
            None
        },
    }
}

pub open spec fn first_offense_from(pv: Seq<(Seq<char>, Seq<char>)>, i: int) -> Option<
    RequestErrorView,
>
    decreases pv.len() - i,
{
    if i < 0 || i >= pv.len() {
        None
    } else if pair_offense(pv, i) is Some {
        pair_offense(pv, i)
    } else {
        first_offense_from(pv, i + 1)
    }
}

/// The offense of the first offending pair, in request order; `None` where
/// the whole query string decodes.
pub open spec fn first_offense(pv: Seq<(Seq<char>, Seq<char>)>) -> Option<RequestErrorView> {
    first_offense_from(pv, 0)
}

/// The number an optional digit string denotes.
pub open spec fn opt_num(o: Option<Seq<char>>) -> Option<int> {
    match o {
        None => None,
        Some(s) => Some(digits_value(s)),
    }
}

/// The flat view an offense-free query string decodes to, with the decoder's
/// defaults for `crop_length` and `matches` filled in.
pub open spec fn flat_of(pv: Seq<(Seq<char>, Seq<char>)>) -> FlatQueryView
    recommends
        first_offense(pv) is None,
{
    FlatQueryView {
        q: lookup_field(pv, FieldId::Q),
        offset: opt_num(lookup_field(pv, FieldId::Offset)),
        limit: opt_num(lookup_field(pv, FieldId::Limit)),
        attributes_to_retrieve: lookup_field(pv, FieldId::AttributesToRetrieve),
        attributes_to_crop: lookup_field(pv, FieldId::AttributesToCrop),
        crop_length: match lookup_field(pv, FieldId::CropLength) {
            None => DEFAULT_CROP_LENGTH as int,
            Some(s) => digits_value(s),
        },
        attributes_to_highlight: lookup_field(pv, FieldId::AttributesToHighlight),
        filter: lookup_field(pv, FieldId::Filter),
        matches: match lookup_field(pv, FieldId::Matches) {
            None => false,
            Some(s) => s == "true"@,
        },
        facets_distribution: lookup_field(pv, FieldId::FacetsDistribution),
    }
}

proof fn lemma_lookup_field_push(
    pv: Seq<(Seq<char>, Seq<char>)>,
    f: FieldId,
    x: (Seq<char>, Seq<char>),
)
    ensures
        lookup_field(pv.push(x), f) == match lookup_field(pv, f) {
            Some(v) => Some(v),
            None => if spec_field_of(x.0) == Some(f) {
                Some(x.1)
            } else {
                None
            },
        },
    decreases pv.len(),
{
    if pv.len() == 0 {
        assert(pv.push(x)[0] == x);
        assert(pv.push(x).drop_first() =~= pv);
    } else {
        assert(pv.push(x)[0] == pv[0]);
        assert(pv.push(x).drop_first() =~= pv.drop_first().push(x));
        lemma_lookup_field_push(pv.drop_first(), f, x);
    }
}

proof fn lemma_lookup_field_some_iff(pv: Seq<(Seq<char>, Seq<char>)>, f: FieldId)
    ensures
        lookup_field(pv, f) is Some <==> exists|j: int|
            0 <= j < pv.len() && spec_field_of(#[trigger] pv[j].0) == Some(f),
    decreases pv.len(),
{
    if pv.len() > 0 {
        lemma_lookup_field_some_iff(pv.drop_first(), f);
        if spec_field_of(pv[0].0) == Some(f) {
            assert(spec_field_of(pv[0].0) == Some(f));
        } else {
            if lookup_field(pv.drop_first(), f) is Some {
                let j = choose|j: int|
                    0 <= j < pv.drop_first().len() && spec_field_of(
                        #[trigger] pv.drop_first()[j].0,
                    ) == Some(f);
                assert(pv[j + 1] == pv.drop_first()[j]);
                assert(spec_field_of(pv[j + 1].0) == Some(f));
            }
            if exists|j: int| 0 <= j < pv.len() && spec_field_of(#[trigger] pv[j].0) == Some(f) {
                let j = choose|j: int|
                    0 <= j < pv.len() && spec_field_of(#[trigger] pv[j].0) == Some(f);
                assert(j != 0);
                assert(pv.drop_first()[j - 1] == pv[j]);
                assert(spec_field_of(pv.drop_first()[j - 1].0) == Some(f));
            }
        }
    }
}

proof fn lemma_first_offense_prefix(pv: Seq<(Seq<char>, Seq<char>)>, k: int)
    requires
        0 <= k <= pv.len(),
        forall|j: int| 0 <= j < k ==> pair_offense(pv, j) is None,
    ensures
        first_offense(pv) == first_offense_from(pv, k),
    decreases k,
{
    if k > 0 {
        lemma_first_offense_prefix(pv, k - 1);
    }
}

proof fn lemma_offense_here(pv: Seq<(Seq<char>, Seq<char>)>, k: int)
    requires
        0 <= k < pv.len(),
        forall|j: int| 0 <= j < k ==> pair_offense(pv, j) is None,
        pair_offense(pv, k) is Some,
    ensures
        first_offense(pv) == pair_offense(pv, k),
{
    lemma_first_offense_prefix(pv, k);
}

proof fn lemma_duplicate_witness(pv: Seq<(Seq<char>, Seq<char>)>, k: int, f: FieldId)
    requires
        0 <= k <= pv.len(),
        lookup_field(pv.take(k), f) is Some,
    ensures
        exists|j: int| 0 <= j < k && spec_field_of(#[trigger] pv[j].0) == Some(f),
{
    lemma_lookup_field_some_iff(pv.take(k), f);
    let j = choose|j: int|
        0 <= j < pv.take(k).len() && spec_field_of(#[trigger] pv.take(k)[j].0) == Some(f);
    assert(pv.take(k)[j] == pv[j]);
    assert(spec_field_of(pv[j].0) == Some(f));
}

proof fn lemma_not_duplicate(pv: Seq<(Seq<char>, Seq<char>)>, k: int, f: FieldId)
    requires
        0 <= k <= pv.len(),
        lookup_field(pv.take(k), f) is None,
    ensures
        !(exists|j: int| 0 <= j < k && spec_field_of(#[trigger] pv[j].0) == Some(f)),
{
    lemma_lookup_field_some_iff(pv.take(k), f);
    assert forall|j: int| 0 <= j < k implies spec_field_of(#[trigger] pv[j].0) != Some(f) by {
        if spec_field_of(pv[j].0) == Some(f) {
            assert(pv.take(k)[j] == pv[j]);
            assert(spec_field_of(pv.take(k)[j].0) == Some(f));
        }
    }
}

/// Whether a numeric slot carries exactly the number an optional raw value
/// denotes.
pub open spec fn num_slot_ok(slot: Option<usize>, l: Option<Seq<char>>) -> bool {
    match l {
        None => slot is None,
        Some(s) => slot matches Some(v) && v as int == digits_value(s),
    }
}

/// Whether the boolean slot carries exactly what an optional raw value
/// denotes.
pub open spec fn bool_slot_ok(slot: Option<bool>, l: Option<Seq<char>>) -> bool {
    match l {
        None => slot is None,
        Some(s) => slot matches Some(b) && b == (s == "true"@),
    }
}

/// Decode percent-decoded query-string pairs into the flat request shape.
///
/// Succeeds exactly when no pair offends: every name is in the field table,
/// no field is given twice, and every value decodes at its field's type. On
/// failure the error reports the first offending pair in request order. The
/// decoder fills the flat defaults: `crop_length` and `matches`.
pub fn decode_query_pairs(pairs: &Vec<(String, String)>) -> (r: Result<
    SearchQueryGet,
    SearchRequestError,
>)
    ensures
        r is Ok <==> first_offense(pairs.deep_view()) is None,
        r matches Ok(flat) ==> flat@ == flat_of(pairs.deep_view()),
        r matches Err(e) ==> Some(e@) == first_offense(pairs.deep_view()),
{
    let ghost pv = pairs.deep_view();
    let mut q: Option<String> = None;
    let mut offset: Option<usize> = None;
    let mut limit: Option<usize> = None;
    let mut attributes_to_retrieve: Option<String> = None;
    let mut attributes_to_crop: Option<String> = None;
    let mut crop_length: Option<usize> = None;
    let mut attributes_to_highlight: Option<String> = None;
    let mut filter: Option<String> = None;
    let mut matches_flag: Option<bool> = None;
    let mut facets_distribution: Option<String> = None;
    let mut k: usize = 0;
    while k < pairs.len()
        invariant
            0 <= k <= pairs.len(),
            pv == pairs.deep_view(),
            pv.len() == pairs.len(),
            forall|j: int| 0 <= j < k ==> pair_offense(pv, j) is None,
            q.deep_view() == lookup_field(pv.take(k as int), FieldId::Q),
            num_slot_ok(offset, lookup_field(pv.take(k as int), FieldId::Offset)),
            num_slot_ok(limit, lookup_field(pv.take(k as int), FieldId::Limit)),
            attributes_to_retrieve.deep_view() == lookup_field(
                pv.take(k as int),
                FieldId::AttributesToRetrieve,
            ),
            attributes_to_crop.deep_view() == lookup_field(
                pv.take(k as int),
                FieldId::AttributesToCrop,
            ),
            num_slot_ok(crop_length, lookup_field(pv.take(k as int), FieldId::CropLength)),
            attributes_to_highlight.deep_view() == lookup_field(
                pv.take(k as int),
                FieldId::AttributesToHighlight,
            ),
            filter.deep_view() == lookup_field(pv.take(k as int), FieldId::Filter),
            bool_slot_ok(matches_flag, lookup_field(pv.take(k as int), FieldId::Matches)),
            facets_distribution.deep_view() == lookup_field(
                pv.take(k as int),
                FieldId::FacetsDistribution,
            ),
        decreases pairs.len() - k,
    {
        let pair = &pairs[k];
        let name = &pair.0;
        let value = &pair.1;
        proof {
            assert(pv[k as int] == pairs@[k as int].deep_view());
            assert(pv[k as int].0 == name@);
            assert(pv[k as int].1 == value@);
        }
        let fid = match field_of(name) {
            Some(f) => f,
            None => {
                proof {
                    assert(pair_offense(pv, k as int) is Some);
                    lemma_offense_here(pv, k as int);
                }
                return Err(SearchRequestError::UnknownField(name.clone()));
            },
        };
        match fid {
            FieldId::Q => {
                if q.is_some() {
                    proof {
                        lemma_duplicate_witness(pv, k as int, FieldId::Q);
                        lemma_offense_here(pv, k as int);
                    }
                    return Err(SearchRequestError::DuplicateField(name.clone()));
                }
                proof {
                    lemma_not_duplicate(pv, k as int, FieldId::Q);
                    assert(pair_offense(pv, k as int) is None);
                }
                q = Some(value.clone());
            },
            FieldId::Offset => {
                if offset.is_some() {
                    proof {
                        lemma_duplicate_witness(pv, k as int, FieldId::Offset);
                        lemma_offense_here(pv, k as int);
                    }
                    return Err(SearchRequestError::DuplicateField(name.clone()));
                }
                proof {
                    lemma_not_duplicate(pv, k as int, FieldId::Offset);
                }
                match parse_usize(value) {
                    Some(v) => {
                        proof {
                            assert(pair_offense(pv, k as int) is None);
                        }
                        offset = Some(v);
                    },
                    None => {
                        proof {
                            assert(pair_offense(pv, k as int) is Some);
                            lemma_offense_here(pv, k as int);
                        }
                        return Err(SearchRequestError::MalformedValue(name.clone()));
                    },
                }
            },
            FieldId::Limit => {
                if limit.is_some() {
                    proof {
                        lemma_duplicate_witness(pv, k as int, FieldId::Limit);
                        lemma_offense_here(pv, k as int);
                    }
                    return Err(SearchRequestError::DuplicateField(name.clone()));
                }
                proof {
                    lemma_not_duplicate(pv, k as int, FieldId::Limit);
                }
                match parse_usize(value) {
                    Some(v) => {
                        proof {
                            assert(pair_offense(pv, k as int) is None);
                        }
                        limit = Some(v);
                    },
                    None => {
                        proof {
                            assert(pair_offense(pv, k as int) is Some);
                            lemma_offense_here(pv, k as int);
                        }
                        return Err(SearchRequestError::MalformedValue(name.clone()));
                    },
                }
            },
            FieldId::AttributesToRetrieve => {
                if attributes_to_retrieve.is_some() {
                    proof {
                        lemma_duplicate_witness(pv, k as int, FieldId::AttributesToRetrieve);
                        lemma_offense_here(pv, k as int);
                    }
                    return Err(SearchRequestError::DuplicateField(name.clone()));
                }
                proof {
                    lemma_not_duplicate(pv, k as int, FieldId::AttributesToRetrieve);
                    assert(pair_offense(pv, k as int) is None);
                }
                attributes_to_retrieve = Some(value.clone());
            },
            FieldId::AttributesToCrop => {
                if attributes_to_crop.is_some() {
                    proof {
                        lemma_duplicate_witness(pv, k as int, FieldId::AttributesToCrop);
                        lemma_offense_here(pv, k as int);
                    }
                    return Err(SearchRequestError::DuplicateField(name.clone()));
                }
                proof {
                    lemma_not_duplicate(pv, k as int, FieldId::AttributesToCrop);
                    assert(pair_offense(pv, k as int) is None);
                }
                attributes_to_crop = Some(value.clone());
            },
            FieldId::CropLength => {
                if crop_length.is_some() {
                    proof {
                        lemma_duplicate_witness(pv, k as int, FieldId::CropLength);
                        lemma_offense_here(pv, k as int);
                    }
                    return Err(SearchRequestError::DuplicateField(name.clone()));
                }
                proof {
                    lemma_not_duplicate(pv, k as int, FieldId::CropLength);
                }
                match parse_usize(value) {
                    Some(v) => {
                        proof {
                            assert(pair_offense(pv, k as int) is None);
                        }
                        crop_length = Some(v);
                    },
                    None => {
                        proof {
                            assert(pair_offense(pv, k as int) is Some);
                            lemma_offense_here(pv, k as int);
                        }
                        return Err(SearchRequestError::MalformedValue(name.clone()));
                    },
                }
            },
            FieldId::AttributesToHighlight => {
                if attributes_to_highlight.is_some() {
                    proof {
                        lemma_duplicate_witness(pv, k as int, FieldId::AttributesToHighlight);
                        lemma_offense_here(pv, k as int);
                    }
                    return Err(SearchRequestError::DuplicateField(name.clone()));
                }
                proof {
                    lemma_not_duplicate(pv, k as int, FieldId::AttributesToHighlight);
                    assert(pair_offense(pv, k as int) is None);
                }
                attributes_to_highlight = Some(value.clone());
            },
            FieldId::Filter => {
                if filter.is_some() {
                    proof {
                        lemma_duplicate_witness(pv, k as int, FieldId::Filter);
                        lemma_offense_here(pv, k as int);
                    }
                    return Err(SearchRequestError::DuplicateField(name.clone()));
                }
                proof {
                    lemma_not_duplicate(pv, k as int, FieldId::Filter);
                    assert(pair_offense(pv, k as int) is None);
                }
                filter = Some(value.clone());
            },
            FieldId::Matches => {
                if matches_flag.is_some() {
                    proof {
                        lemma_duplicate_witness(pv, k as int, FieldId::Matches);
                        lemma_offense_here(pv, k as int);
                    }
                    return Err(SearchRequestError::DuplicateField(name.clone()));
                }
                proof {
                    lemma_not_duplicate(pv, k as int, FieldId::Matches);
                }
                if *value == "true".to_owned() {
                    proof {
                        assert(pair_offense(pv, k as int) is None);
                    }
                    matches_flag = Some(true);
                } else if *value == "false".to_owned() {
                    proof {
                        assert(pair_offense(pv, k as int) is None);
                    }
                    matches_flag = Some(false);
                } else {
                    proof {
                        assert(pair_offense(pv, k as int) is Some);
                        lemma_offense_here(pv, k as int);
                    }
                    return Err(SearchRequestError::MalformedValue(name.clone()));
                }
            },
            FieldId::FacetsDistribution => {
                if facets_distribution.is_some() {
                    proof {
                        lemma_duplicate_witness(pv, k as int, FieldId::FacetsDistribution);
                        lemma_offense_here(pv, k as int);
                    }
                    return Err(SearchRequestError::DuplicateField(name.clone()));
                }
                proof {
                    lemma_not_duplicate(pv, k as int, FieldId::FacetsDistribution);
                    assert(pair_offense(pv, k as int) is None);
                }
                facets_distribution = Some(value.clone());
            },
        }
        proof {
            assert(pv.take(k as int + 1) =~= pv.take(k as int).push(pv[k as int]));
            lemma_lookup_field_push(pv.take(k as int), FieldId::Q, pv[k as int]);
            lemma_lookup_field_push(pv.take(k as int), FieldId::Offset, pv[k as int]);
            lemma_lookup_field_push(pv.take(k as int), FieldId::Limit, pv[k as int]);
            lemma_lookup_field_push(pv.take(k as int), FieldId::AttributesToRetrieve, pv[k as int]);
            lemma_lookup_field_push(pv.take(k as int), FieldId::AttributesToCrop, pv[k as int]);
            lemma_lookup_field_push(pv.take(k as int), FieldId::CropLength, pv[k as int]);
            lemma_lookup_field_push(
                pv.take(k as int),
                FieldId::AttributesToHighlight,
                pv[k as int],
            );
            lemma_lookup_field_push(pv.take(k as int), FieldId::Filter, pv[k as int]);
            lemma_lookup_field_push(pv.take(k as int), FieldId::Matches, pv[k as int]);
            lemma_lookup_field_push(pv.take(k as int), FieldId::FacetsDistribution, pv[k as int]);
        }
        k = k + 1;
    }
    proof {
        assert(pv.take(pairs.len() as int) =~= pv);
        lemma_first_offense_prefix(pv, pv.len() as int);
    }
    let flat = SearchQueryGet {
        q,
        offset,
        limit,
        attributes_to_retrieve,
        attributes_to_crop,
        crop_length: match crop_length {
            Some(c) => c,
            None => DEFAULT_CROP_LENGTH,
        },
        attributes_to_highlight,
        filter,
        matches: match matches_flag {
            Some(b) => b,
            None => false,
        },
        facets_distribution,
    };
    proof {
        assert(flat@ =~= flat_of(pv));
    }
    Ok(flat)
}

} // verus!
