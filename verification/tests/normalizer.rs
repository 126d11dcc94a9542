use search_normalizer::canonical_from_query_pairs;
use search_normalizer::hit_count_is_non_exhaustive;
use search_normalizer::Filter;
use search_normalizer::QueryField;
use search_normalizer::SearchQuery;
use search_normalizer::SearchQueryGet;
use search_normalizer::SearchRequestError;
use search_normalizer::DEFAULT_CROP_LENGTH;
use search_normalizer::DEFAULT_SEARCH_LIMIT;

fn flat_empty() -> SearchQueryGet {
    SearchQueryGet {
        q: None,
        offset: None,
        limit: None,
        attributes_to_retrieve: None,
        attributes_to_crop: None,
        crop_length: DEFAULT_CROP_LENGTH,
        attributes_to_highlight: None,
        filter: None,
        matches: false,
        facets_distribution: None,
    }
}

fn pairs(items: &[(&str, &str)]) -> Vec<(String, String)> {
    items.iter().map(|(n, v)| (n.to_string(), v.to_string())).collect()
}

#[test]
fn missing_limit_gets_default() {
    let c = SearchQuery::try_from(flat_empty()).unwrap();
    assert_eq!(c.limit, DEFAULT_SEARCH_LIMIT);
}

#[test]
fn present_limit_is_kept() {
    let mut flat = flat_empty();
    flat.limit = Some(3);
    let c = SearchQuery::try_from(flat).unwrap();
    assert_eq!(c.limit, 3);
}

#[test]
fn missing_crop_and_matches_get_defaults() {
    let c = canonical_from_query_pairs(&pairs(&[])).unwrap();
    assert_eq!(c.crop_length, DEFAULT_CROP_LENGTH);
    assert!(!c.matches);
}

#[test]
fn valid_json_filter_is_structured() {
    let mut flat = flat_empty();
    flat.filter = Some("{\"genre\":\"action\"}".to_string());
    let c = SearchQuery::try_from(flat).unwrap();
    assert_eq!(c.filter, Some(Filter::Structured("{\"genre\":\"action\"}".to_string())));
}

#[test]
fn non_json_filter_falls_back_to_text() {
    let mut flat = flat_empty();
    flat.filter = Some("category = shoes".to_string());
    let c = SearchQuery::try_from(flat).unwrap();
    assert_eq!(c.filter, Some(Filter::Text("category = shoes".to_string())));
}

#[test]
fn bad_retrieve_list_names_the_field() {
    let mut flat = flat_empty();
    flat.attributes_to_retrieve = Some("notjson".to_string());
    let e = SearchQuery::try_from(flat).unwrap_err();
    assert_eq!(e, SearchRequestError::StructuredDecode(QueryField::AttributesToRetrieve));
}

#[test]
fn bad_facets_list_names_the_field() {
    let mut flat = flat_empty();
    flat.facets_distribution = Some("[1,2]".to_string());
    let e = SearchQuery::try_from(flat).unwrap_err();
    assert_eq!(e, SearchRequestError::StructuredDecode(QueryField::FacetsDistribution));
}

#[test]
fn first_bad_list_field_wins() {
    let mut flat = flat_empty();
    flat.attributes_to_crop = Some("oops".to_string());
    flat.attributes_to_highlight = Some("oops".to_string());
    let e = SearchQuery::try_from(flat).unwrap_err();
    assert_eq!(e, SearchRequestError::StructuredDecode(QueryField::AttributesToCrop));
}

#[test]
fn list_fields_are_decoded() {
    let c = canonical_from_query_pairs(&pairs(&[(
        "attributesToRetrieve",
        "[\"title\",\"overview\"]",
    )]))
    .unwrap();
    assert_eq!(
        c.attributes_to_retrieve,
        Some(vec!["title".to_string(), "overview".to_string()])
    );
}

#[test]
fn transports_agree_on_overlapping_fields() {
    let through_query = canonical_from_query_pairs(&pairs(&[
        ("q", "batman"),
        ("limit", "5"),
        ("attributesToRetrieve", "[\"title\"]"),
        ("filter", "genre = action"),
    ]))
    .unwrap();
    let through_body = SearchQuery::from_parts(
        Some("batman".to_string()),
        None,
        Some(5),
        Some(vec!["title".to_string()]),
        None,
        None,
        None,
        Some(Filter::from_text("genre = action".to_string())),
        None,
        None,
    );
    assert_eq!(through_query, through_body);
}

#[test]
fn get_with_q_and_limit() {
    let c = canonical_from_query_pairs(&pairs(&[("q", "batman"), ("limit", "5")])).unwrap();
    assert_eq!(c.q, Some("batman".to_string()));
    assert_eq!(c.limit, 5);
    assert_eq!(c.crop_length, DEFAULT_CROP_LENGTH);
    assert!(!c.matches);
    assert_eq!(c.offset, None);
    assert_eq!(c.attributes_to_retrieve, None);
    assert_eq!(c.filter, None);
}

#[test]
fn get_with_text_filter() {
    let c = canonical_from_query_pairs(&pairs(&[("filter", "genre = action")])).unwrap();
    assert_eq!(c.filter, Some(Filter::Text("genre = action".to_string())));
}

#[test]
fn get_with_json_filter() {
    let c = canonical_from_query_pairs(&pairs(&[("filter", "\"drama\"")])).unwrap();
    assert_eq!(c.filter, Some(Filter::Structured("\"drama\"".to_string())));
}

#[test]
fn get_with_bad_retrieve_list_fails() {
    let e = canonical_from_query_pairs(&pairs(&[("attributesToRetrieve", "notjson")]))
        .unwrap_err();
    assert_eq!(e, SearchRequestError::StructuredDecode(QueryField::AttributesToRetrieve));
}

#[test]
fn hit_count_policy_accepts_only_estimates() {
    assert!(hit_count_is_non_exhaustive(false));
    assert!(!hit_count_is_non_exhaustive(true));
}

#[test]
fn unknown_field_is_rejected() {
    let e = canonical_from_query_pairs(&pairs(&[("qq", "batman")])).unwrap_err();
    assert_eq!(e, SearchRequestError::UnknownField("qq".to_string()));
}

#[test]
fn duplicate_field_is_rejected() {
    let e = canonical_from_query_pairs(&pairs(&[("q", "a"), ("q", "b")])).unwrap_err();
    assert_eq!(e, SearchRequestError::DuplicateField("q".to_string()));
}

#[test]
fn malformed_limit_is_rejected() {
    let e = canonical_from_query_pairs(&pairs(&[("limit", "abc")])).unwrap_err();
    assert_eq!(e, SearchRequestError::MalformedValue("limit".to_string()));
}

#[test]
fn empty_limit_is_rejected() {
    let e = canonical_from_query_pairs(&pairs(&[("limit", "")])).unwrap_err();
    assert_eq!(e, SearchRequestError::MalformedValue("limit".to_string()));
}

#[test]
fn oversized_limit_is_rejected() {
    let e = canonical_from_query_pairs(&pairs(&[("limit", "99999999999999999999999999")]))
        .unwrap_err();
    assert_eq!(e, SearchRequestError::MalformedValue("limit".to_string()));
}

#[test]
fn malformed_matches_is_rejected() {
    let e = canonical_from_query_pairs(&pairs(&[("matches", "TRUE")])).unwrap_err();
    assert_eq!(e, SearchRequestError::MalformedValue("matches".to_string()));
}

#[test]
fn matches_values_are_decoded() {
    let c = canonical_from_query_pairs(&pairs(&[("matches", "true")])).unwrap();
    assert!(c.matches);
    let c = canonical_from_query_pairs(&pairs(&[("matches", "false")])).unwrap();
    assert!(!c.matches);
}

#[test]
fn numeric_fields_are_decoded() {
    let c = canonical_from_query_pairs(&pairs(&[("offset", "0"), ("cropLength", "30")]))
        .unwrap();
    assert_eq!(c.offset, Some(0));
    assert_eq!(c.crop_length, 30);
}

#[test]
fn query_shape_error_comes_before_list_decoding() {
    let e = canonical_from_query_pairs(&pairs(&[
        ("attributesToRetrieve", "notjson"),
        ("limit", "abc"),
    ]))
    .unwrap_err();
    assert_eq!(e, SearchRequestError::MalformedValue("limit".to_string()));
}

#[test]
fn empty_q_is_kept_verbatim() {
    let c = canonical_from_query_pairs(&pairs(&[("q", "")])).unwrap();
    assert_eq!(c.q, Some(String::new()));
}

#[test]
fn body_parts_get_defaults() {
    let c = SearchQuery::from_parts(None, None, None, None, None, None, None, None, None, None);
    assert_eq!(c.limit, DEFAULT_SEARCH_LIMIT);
    assert_eq!(c.crop_length, DEFAULT_CROP_LENGTH);
    assert!(!c.matches);
    assert_eq!(c.q, None);
}
