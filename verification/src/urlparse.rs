//! The adapter's only calls into the `url` crate: parsing a
//! provider-returned URL and decomposing its query string.

use vstd::prelude::*;
use crate::redirect::pairs_view;

verus! {

/// Whether the string parses as an absolute URL.
pub uninterp spec fn url_parses(s: Seq<char>) -> bool;

/// The form-urlencoded (key, value) decomposition of the query string
/// of the URL that `s` parses to, in the order the query carries the
/// pairs.
pub uninterp spec fn url_query_pairs(s: Seq<char>) -> Seq<(Seq<char>, Seq<char>)>;

/// Relies on `url::Url::parse`, which parses an absolute URL from a
/// string, and `url::Url::query_pairs`, which decodes the parsed URL's
/// query string as `application/x-www-form-urlencoded` (key, value)
/// pairs in order. Both results depend on the input string alone.
#[verifier::external_body]
pub(crate) fn parse_url_query_pairs(s: &str) -> (r: Option<Vec<(String, String)>>)
    ensures
        r is Some <==> url_parses(s@),
        r matches Some(pairs) ==> pairs_view(pairs@) == url_query_pairs(s@),
{
    match url::Url::parse(s) {
        Ok(u) => Some(u.query_pairs().map(|(k, v)| (k.to_string(), v.to_string())).collect()),
        Err(_) => None,
    }
}

} // verus!
