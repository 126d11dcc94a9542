//! Request-normalization layer of a search API.
//!
//! Search requests arrive in two transport shapes: flat, string-encoded URL
//! query parameters ([`SearchQueryGet`]) and a typed JSON body. Both converge
//! on one canonical representation ([`SearchQuery`]) before the request is
//! handed to the search engine. The conversion applies system defaults,
//! decodes the JSON-encoded list fields strictly, and parses the `filter`
//! field leniently: structured when its text is valid JSON, verbatim text
//! otherwise.

pub mod digits;
pub mod error;
pub mod json;
pub mod laws;
pub mod model;
pub mod normalize;
pub mod query_string;
pub mod requests;

pub use error::QueryField;
pub use error::SearchRequestError;
pub use model::Filter;
pub use model::SearchQuery;
pub use model::SearchQueryGet;
pub use model::DEFAULT_CROP_LENGTH;
pub use model::DEFAULT_SEARCH_LIMIT;
pub use requests::canonical_from_query_pairs;
pub use requests::hit_count_is_non_exhaustive;
