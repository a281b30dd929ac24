//! The address of the search page for a query, and the line that reports
//! that it could not be opened.

use crate::encode::{encode_component, lemma_percent_round_trip, percent_decode, percent_encode};
use vstd::prelude::*;
use vstd::utf8::*;

verus! {

/// What every search address starts with.
pub open spec fn url_prefix() -> Seq<char> {
    "https://duckduckgo.com/?q="@
}

/// The search address for a query: the prefix, then the percent-encoded
/// query.
pub open spec fn search_url_of(query: Seq<char>) -> Seq<char> {
    url_prefix() + percent_encode(query)
}

/// The part of an address that follows the prefix.
pub open spec fn query_part(url: Seq<char>) -> Seq<char> {
    url.skip(url_prefix().len() as int)
}

/// The line that reports a failure to open an address.
pub open spec fn failure_line_of(url: Seq<char>, reason: Seq<char>) -> Seq<char> {
    "Error opening "@ + url + ": "@ + reason
}

/// Builds the address of the search page for a query.
pub fn search_url(query: &str) -> (url: String)
    ensures
        url@ == search_url_of(query@),
{
    let encoded = encode_component(query);
    String::from_str("https://duckduckgo.com/?q=").concat(encoded.as_str())
}

/// Builds the line that reports that `url` could not be opened, and why.
pub fn failure_line(url: &str, reason: &str) -> (line: String)
    ensures
        line@ == failure_line_of(url@, reason@),
{
    String::from_str("Error opening ").concat(url).concat(": ").concat(reason)
}

/// The address of a search is its prefix followed by the encoded query, and
/// decoding what follows the prefix gives the query back.
pub proof fn lemma_search_url_round_trip(query: Seq<char>)
    ensures
        search_url_of(query) == url_prefix() + percent_encode(query),
        query_part(search_url_of(query)) == percent_encode(query),
        decode_utf8(percent_decode(encode_utf8(query_part(search_url_of(query))))) == query,
{
    assert(query_part(search_url_of(query)) =~= percent_encode(query));
    lemma_percent_round_trip(query);
}

/// The line that reports a failure holds the address and the reason, each
/// whole and in this order.
pub proof fn lemma_failure_line_holds_both(url: Seq<char>, reason: Seq<char>)
    ensures
        ({
            let line = failure_line_of(url, reason);
            let at = "Error opening "@.len() as int;
            let sep = ": "@.len() as int;
            &&& line.len() == at + url.len() + sep + reason.len()
            &&& line.subrange(at, at + url.len()) == url
            &&& line.subrange(at + url.len() + sep, line.len() as int) == reason
        }),
{
    let line = failure_line_of(url, reason);
    let at = "Error opening "@.len() as int;
    let sep = ": "@.len() as int;
    assert(line.subrange(at, at + url.len()) =~= url);
    assert(line.subrange(at + url.len() + sep, line.len() as int) =~= reason);
}

} // verus!
