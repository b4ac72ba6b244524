//! The query-client boundary: the configuration value and the construction
//! of the lookup URL. The network fetch itself is outside the library; the
//! URL text is built here, through the `url` crate.

use vstd::prelude::*;
use url::Url;

verus! {

/// The program's configuration: an explicit value, not ambient state.
pub struct Args {
    /// When set, the caller additionally shows the constructed URL, the
    /// raw response and the intermediate structures.
    pub debug: bool,
    /// The word to look up.
    pub word: Option<String>,
}

/// The fixed lookup endpoint, carrying the protocol parameters.
pub open spec fn endpoint_spec() -> Seq<char> {
    "http://dict.youdao.com/fsearch?version=1.1&client=deskdict&keyfrom=chrome.extension&doctype=xml&xmlVersion=3.2"@
}

/// The fixed lookup endpoint.
pub fn endpoint() -> (s: &'static str)
    ensures
        s@ == endpoint_spec(),
{
    "http://dict.youdao.com/fsearch?version=1.1&client=deskdict&keyfrom=chrome.extension&doctype=xml&xmlVersion=3.2"
}

/// Whether a text parses as an absolute URL.
pub uninterp spec fn url_parses(base: Seq<char>) -> bool;

/// The text of the URL `base` with `key=value` appended to its query,
/// percent-encoded as needed: a function of the three texts alone.
pub uninterp spec fn url_with_param(base: Seq<char>, key: Seq<char>, value: Seq<char>) -> Seq<
    char,
>;

/// Relies on `url::Url::parse`, `Url::query_pairs_mut` with `append_pair`,
/// and `Url::to_string`: whether a text parses is a property of the text,
/// and the serialized URL with the appended query pair is a function of
/// the three texts alone.
#[verifier::external_body]
fn append_query_pair(base: &str, key: &str, value: &str) -> (r: Option<String>)
    ensures
        r is Some <==> url_parses(base@),
        r matches Some(u) ==> u@ == url_with_param(base@, key@, value@),
{
    match Url::parse(base) {
        Ok(mut parsed) => {
            parsed.query_pairs_mut().append_pair(key, value);
            Some(parsed.to_string())
        },
        Err(_) => None,
    }
}

/// Builds the lookup URL for the configured word: the fixed endpoint with
/// the word appended as the query parameter `q`. Returns `None` exactly
/// when the endpoint text does not parse as a URL.
pub fn build_query_url(args: &Args) -> (r: Option<String>)
    requires
        args.word is Some,
    ensures
        r is Some <==> url_parses(endpoint_spec()),
        r matches Some(u) ==> u@ == url_with_param(endpoint_spec(), "q"@, args.word->Some_0@),
{
    match &args.word {
        Some(w) => append_query_pair(endpoint(), "q", w.as_str()),
        None => None,
    }
}

} // verus!
