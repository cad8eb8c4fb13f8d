//! URL building through the `url` implementation that `reqwest` exports.

use vstd::prelude::*;

verus! {

/// The text of an optional string.
pub open spec fn opt_text(o: Option<String>) -> Option<Seq<char>> {
    match o {
        Some(s) => Some(s@),
        None => None,
    }
}

/// The text of each name/value pair.
pub open spec fn pairs_text(pairs: Seq<(String, String)>) -> Seq<(Seq<char>, Seq<char>)> {
    pairs.map_values(|p: (String, String)| (p.0@, p.1@))
}

/// Names the serialisation of `reqwest::Url::parse(base)?.join(input)?`:
/// `input` resolved against the absolute URL `base` (`None` where either
/// step fails).
pub uninterp spec fn joined_url(base: Seq<char>, input: Seq<char>) -> Option<Seq<char>>;

/// Names the serialisation of `reqwest::Url::parse_with_params(url, pairs)`:
/// `url` parsed, with the pairs form-urlencoded and appended to its query
/// in order (`None` where `url` does not parse).
pub uninterp spec fn url_with_query(url: Seq<char>, pairs: Seq<(Seq<char>, Seq<char>)>) -> Option<
    Seq<char>,
>;

/// Trusted: parses `base` with `reqwest::Url::parse` and resolves `input`
/// against it with `Url::join`, handing back the serialised URL. The
/// contract only names the result (`joined_url`); the resolution rules of
/// the URL standard are not restated.
#[verifier::external_body]
pub(crate) fn join_url(base: &str, input: &str) -> (r: Option<String>)
    ensures
        opt_text(r) == joined_url(base@, input@),
{
    match reqwest::Url::parse(base) {
        Ok(b) => match b.join(input) {
            Ok(u) => Some(u.into()),
            Err(_) => None,
        },
        Err(_) => None,
    }
}

/// Trusted: calls `reqwest::Url::parse_with_params` with `url` and the pairs,
/// handing back the serialised URL. The contract only names the result
/// (`url_with_query`); form-urlencoding is not restated.
#[verifier::external_body]
pub(crate) fn add_query_pairs(url: &str, pairs: &Vec<(String, String)>) -> (r: Option<String>)
    ensures
        opt_text(r) == url_with_query(url@, pairs_text(pairs@)),
{
    match reqwest::Url::parse_with_params(url, pairs.iter()) {
        Ok(u) => Some(u.into()),
        Err(_) => None,
    }
}

} // verus!
