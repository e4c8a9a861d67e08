//! Redirect-URL handling through the url crate.
use vstd::prelude::*;

verus! {

/// What the url crate's parser makes of a string: the serialization of the
/// parsed absolute URL, or nothing when the string does not parse.
pub uninterp spec fn url_normalize(s: Seq<char>) -> Option<Seq<char>>;

/// What the url crate's query serializer yields when the given pairs are
/// appended, percent-encoded, to the query of the given URL (the input
/// unchanged when it does not parse as a URL).
pub uninterp spec fn url_with_pairs(url: Seq<char>, pairs: Seq<(Seq<char>, Seq<char>)>) -> Seq<
    char,
>;

/// Relies on url::Url::parse and the Url-to-String conversion: parse an
/// absolute URL and hand back its serialization.
#[verifier::external_body]
pub(crate) fn parse_url(s: &str) -> (r: Option<String>)
    ensures
        match r {
            Some(u) => url_normalize(s@) == Some(u@),
            None => url_normalize(s@) is None,
        },
{
    match url::Url::parse(s) {
        Ok(u) => Some(String::from(u)),
        Err(_) => None,
    }
}

/// Relies on url::Url::parse and url::UrlQuery's serializer (extend_pairs):
/// append the pairs, percent-encoded, to the URL's query.
#[verifier::external_body]
pub(crate) fn append_url_pairs(url: &str, pairs: &Vec<(String, String)>) -> (r: String)
    ensures
        r@ == url_with_pairs(url@, crate::encode::pairs_view(pairs@)),
{
    match url::Url::parse(url) {
        Ok(mut u) => {
            u.query_pairs_mut().extend_pairs(pairs.iter().map(|p| (p.0.as_str(), p.1.as_str())));
            String::from(u)
        },
        Err(_) => url.to_string(),
    }
}

} // verus!
