//! Turns the message of a panic into a web search: the hook that this crate
//! describes runs the panic hook that was installed before it, derives a
//! query from the panic message and asks for the search page to be opened.

pub mod encode;
pub mod invocation;
pub mod payload;
pub mod query;
pub mod url;

use crate::invocation::{first_of, message_due, next_of, Action, Event, Stage};
use crate::payload::Payload;
use crate::query::{default_query, default_query_of};
use crate::url::search_url;
use vstd::prelude::*;

verus! {

/// A hook that searches for panic messages. It holds the function that
/// turns a message into a query.
pub struct SearchHook<F: Fn(&str) -> String> {
    query_fn: F,
}

impl<F: Fn(&str) -> String> SearchHook<F> {
    /// The function that derives the query.
    pub closed spec fn query_fn(&self) -> F {
        self.query_fn
    }

    /// The query function can be called on every message.
    #[verifier::type_invariant]
    pub closed spec fn callable(&self) -> bool {
        forall|m: &str| #[trigger] call_requires(self.query_fn, (m,))
    }

    /// Whether `query` is what the query function gives for `msg`.
    pub open spec fn derives(&self, msg: Seq<char>, query: Seq<char>) -> bool {
        exists|m: &str, q: String|
            m@ == msg && q@ == query && #[trigger] call_ensures(self.query_fn(), (m,), q)
    }

    /// Derives the query for a message: one call of the query function.
    pub fn query_for(&self, msg: &str) -> (query: String)
        ensures
            call_ensures(self.query_fn(), (msg,), query),
            self.derives(msg@, query@),
    {
        proof {
            use_type_invariant(self);
        }
        let query = (self.query_fn)(msg);
        assert(call_ensures(self.query_fn(), (msg,), query));
        query
    }

    /// Starts an invocation: whatever the payload holds, the hook that was
    /// installed before runs first.
    pub fn begin(&self, payload: Payload) -> (out: (Stage, Action))
        ensures
            (out.0@, out.1@) == first_of(payload@),
    {
        (Stage::PriorRunning(payload), Action::RunPrior)
    }

    /// Takes an invocation one step further: from the stage and the event it
    /// gives the next stage and what to do next.
    pub fn resume(&self, stage: Stage, event: Event) -> (out: (Stage, Action))
        ensures
            exists|query: Seq<char>|
                {
                    &&& message_due(stage@, event@) matches Some(msg) ==> self.derives(msg, query)
                    &&& (out.0@, out.1@) == #[trigger] next_of(stage@, event@, query)
                },
    {
        match (stage, event) {
            (Stage::PriorRunning(payload), Event::PriorReturned) => match payload.message() {
                Some(msg) => {
                    let query = self.query_for(msg);
                    let url = search_url(query.as_str());
                    let out = (Stage::Opening(url.clone()), Action::Open(url));
                    assert((out.0@, out.1@) == next_of(stage@, event@, query@));
                    out
                },
                None => {
                    let out = (Stage::Returned, Action::Done);
                    assert((out.0@, out.1@) == next_of(stage@, event@, seq![]));
                    out
                },
            },
            (Stage::Opening(url), Event::OpenFailed(reason)) => {
                let line = crate::url::failure_line(url.as_str(), reason.as_str());
                let out = (Stage::Returned, Action::Report(line));
                assert((out.0@, out.1@) == next_of(stage@, event@, seq![]));
                out
            },
            _ => {
                let out = (Stage::Returned, Action::Done);
                assert((out.0@, out.1@) == next_of(stage@, event@, seq![]));
                out
            },
        }
    }
}

/// Makes the hook that searches with a query of the caller's own: the
/// query is what `query_fn` returns for the message.
pub fn with_query<F>(query_fn: F) -> (hook: SearchHook<F>) where
    F: Fn(&str) -> String + Send + Sync + 'static,

    requires
        forall|m: &str| #[trigger] call_requires(query_fn, (m,)),
    ensures
        hook.query_fn() == query_fn,
{
    SearchHook { query_fn }
}

/// Makes the hook that searches Stack Overflow: the query is the message
/// behind the shortcut `!so`.
pub fn enable() -> (hook: SearchHook<impl Fn(&str) -> String>)
    ensures
        forall|msg: Seq<char>, query: Seq<char>| #[trigger]
            hook.derives(msg, query) ==> query == default_query_of(msg),
{
    let query_fn = |msg: &str| -> (query: String)
        ensures
            query@ == default_query_of(msg@),
        { default_query(msg) };
    with_query(query_fn)
}

} // verus!
