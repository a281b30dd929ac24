//! The query that is searched for when the caller supplies none of their own.

use vstd::prelude::*;

verus! {

/// The shortcut that sends a search to Stack Overflow, with the space that
/// parts it from the message.
pub open spec fn bang() -> Seq<char> {
    "!so "@
}

/// The default query for a message: the shortcut, then the message.
pub open spec fn default_query_of(msg: Seq<char>) -> Seq<char> {
    bang() + msg
}

/// Builds the default query for a panic message.
pub fn default_query(msg: &str) -> (query: String)
    ensures
        query@ == default_query_of(msg@),
{
    String::from_str("!so ").concat(msg)
}

} // verus!
