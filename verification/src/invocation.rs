//! One invocation of the hook, as a machine: the hook decides, its caller
//! acts. The caller performs each [`Action`] and reports what came of it as
//! an [`Event`], until the invocation has returned.

use crate::payload::{Payload, PayloadView};
use crate::url::{failure_line_of, search_url_of};
use vstd::prelude::*;

verus! {

/// Where an invocation stands.
#[derive(Debug, PartialEq, Eq)]
pub enum Stage {
    /// The hook that was installed before is running; the payload waits.
    PriorRunning(Payload),
    /// The opener has been asked for this address.
    Opening(String),
    /// The invocation is over.
    Returned,
}

/// What the caller reports back.
#[derive(Debug, PartialEq, Eq)]
pub enum Event {
    /// The hook that was installed before has returned.
    PriorReturned,
    /// The opener has opened the address.
    Opened,
    /// The opener has failed, for this reason.
    OpenFailed(String),
}

/// What the caller is to do next.
#[derive(Debug, PartialEq, Eq)]
pub enum Action {
    /// Run the hook that was installed before, then report `PriorReturned`.
    RunPrior,
    /// Ask the opener for this address, then report `Opened` or `OpenFailed`.
    Open(String),
    /// Print this line and return.
    Report(String),
    /// Return.
    Done,
}

/// The mathematical value of a [`Stage`].
pub enum StageView {
    PriorRunning(PayloadView),
    Opening(Seq<char>),
    Returned,
}

/// The mathematical value of an [`Event`].
pub enum EventView {
    PriorReturned,
    Opened,
    OpenFailed(Seq<char>),
}

/// The mathematical value of an [`Action`].
pub enum ActionView {
    RunPrior,
    Open(Seq<char>),
    Report(Seq<char>),
    Done,
}

impl View for Stage {
    type V = StageView;

    open spec fn view(&self) -> StageView {
        match self {
            Stage::PriorRunning(payload) => StageView::PriorRunning(payload@),
            Stage::Opening(url) => StageView::Opening(url@),
            Stage::Returned => StageView::Returned,
        }
    }
}

impl View for Event {
    type V = EventView;

    open spec fn view(&self) -> EventView {
        match self {
            Event::PriorReturned => EventView::PriorReturned,
            Event::Opened => EventView::Opened,
            Event::OpenFailed(reason) => EventView::OpenFailed(reason@),
        }
    }
}

impl View for Action {
    type V = ActionView;

    open spec fn view(&self) -> ActionView {
        match self {
            Action::RunPrior => ActionView::RunPrior,
            Action::Open(url) => ActionView::Open(url@),
            Action::Report(line) => ActionView::Report(line@),
            Action::Done => ActionView::Done,
        }
    }
}

/// The stage in which every invocation starts, with the first action:
/// before anything else, the hook that was installed before runs.
pub open spec fn first_of(payload: PayloadView) -> (StageView, ActionView) {
    (StageView::PriorRunning(payload), ActionView::RunPrior)
}

/// The message for which a query is due at this step, if this is the step
/// that searches.
pub open spec fn message_due(stage: StageView, event: EventView) -> Option<Seq<char>> {
    match (stage, event) {
        (StageView::PriorRunning(payload), EventView::PriorReturned) => payload.message(),
        _ => None,
    }
}

/// The next stage and action, given the stage, the event and the query that
/// the query function derives from the message.
///
/// Once the earlier hook has returned, a payload without a message ends the
/// invocation; one with a message has its search address opened. A failure
/// of the opener is reported in one line. An event that the stage does not
/// wait for ends the invocation.
pub open spec fn next_of(stage: StageView, event: EventView, query: Seq<char>) -> (
    StageView,
    ActionView,
) {
    match (stage, event) {
        (StageView::PriorRunning(payload), EventView::PriorReturned) => match payload.message() {
            Some(_) => (
                StageView::Opening(search_url_of(query)),
                ActionView::Open(search_url_of(query)),
            ),
            None => (StageView::Returned, ActionView::Done),
        },
        (StageView::Opening(url), EventView::OpenFailed(reason)) => (
            StageView::Returned,
            ActionView::Report(failure_line_of(url, reason)),
        ),
        _ => (StageView::Returned, ActionView::Done),
    }
}

/// The actions that follow from a stage as the events come in, in order.
/// After `Returned` nothing follows.
pub open spec fn actions_from(stage: StageView, query: Seq<char>, events: Seq<EventView>) -> Seq<
    ActionView,
>
    decreases events.len(),
{
    if events.len() == 0 || stage is Returned {
        seq![]
    } else {
        let (next, action) = next_of(stage, events[0], query);
        seq![action] + actions_from(next, query, events.drop_first())
    }
}

/// All actions of one invocation: the first one, then those that the events
/// bring.
pub open spec fn actions_of(payload: PayloadView, query: Seq<char>, events: Seq<EventView>) -> Seq<
    ActionView,
> {
    seq![first_of(payload).1] + actions_from(first_of(payload).0, query, events)
}

/// No step asks for the earlier hook again.
pub proof fn lemma_steps_never_run_prior(
    stage: StageView,
    query: Seq<char>,
    events: Seq<EventView>,
)
    ensures
        forall|i: int|
            0 <= i < actions_from(stage, query, events).len() ==> !(#[trigger] actions_from(
                stage,
                query,
                events,
            )[i] is RunPrior),
    decreases events.len(),
{
    if events.len() == 0 || stage is Returned {
    } else {
        let (next, action) = next_of(stage, events[0], query);
        lemma_steps_never_run_prior(next, query, events.drop_first());
    }
}

/// The hook that was installed before runs exactly once in every
/// invocation, and before anything else is done: the first action asks for
/// it, whatever the payload holds, and no later action does.
pub proof fn lemma_prior_runs_first_and_once(
    payload: PayloadView,
    query: Seq<char>,
    events: Seq<EventView>,
)
    ensures
        actions_of(payload, query, events).len() >= 1,
        actions_of(payload, query, events)[0] is RunPrior,
        forall|i: int|
            1 <= i < actions_of(payload, query, events).len() ==> !(#[trigger] actions_of(
                payload,
                query,
                events,
            )[i] is RunPrior),
{
    lemma_steps_never_run_prior(first_of(payload).0, query, events);
    let rest = actions_from(first_of(payload).0, query, events);
    assert forall|i: int| 1 <= i < actions_of(payload, query, events).len() implies !(
    #[trigger] actions_of(payload, query, events)[i] is RunPrior) by {
        assert(actions_of(payload, query, events)[i] == rest[i - 1]);
    }
}

/// A stage from which nothing is searched: the invocation is over, or its
/// payload holds no message.
pub open spec fn without_message(stage: StageView) -> bool {
    match stage {
        StageView::PriorRunning(payload) => payload.message() is None,
        StageView::Opening(_) => false,
        StageView::Returned => true,
    }
}

/// From a stage without a message every step only ends the invocation.
pub proof fn lemma_steps_without_message(
    stage: StageView,
    query: Seq<char>,
    events: Seq<EventView>,
)
    requires
        without_message(stage),
    ensures
        forall|i: int|
            0 <= i < actions_from(stage, query, events).len() ==> #[trigger] actions_from(
                stage,
                query,
                events,
            )[i] is Done,
    decreases events.len(),
{
    if events.len() == 0 || stage is Returned {
    } else {
        let (next, action) = next_of(stage, events[0], query);
        lemma_steps_without_message(next, query, events.drop_first());
    }
}

/// Where the payload holds no message, no address is built and the opener
/// is never asked: no action of the invocation is `Open`, and none is
/// `Report`.
pub proof fn lemma_no_message_no_search(
    payload: PayloadView,
    query: Seq<char>,
    events: Seq<EventView>,
)
    requires
        payload.message() is None,
    ensures
        forall|i: int|
            0 <= i < actions_of(payload, query, events).len() ==> {
                let action = #[trigger] actions_of(payload, query, events)[i];
                !(action is Open) && !(action is Report)
            },
{
    lemma_steps_without_message(first_of(payload).0, query, events);
    let rest = actions_from(first_of(payload).0, query, events);
    assert forall|i: int| 0 <= i < actions_of(payload, query, events).len() implies {
        let action = #[trigger] actions_of(payload, query, events)[i];
        !(action is Open) && !(action is Report)
    } by {
        if i > 0 {
            assert(actions_of(payload, query, events)[i] == rest[i - 1]);
        }
    }
}

/// Where the payload holds a message and the opener fails, the invocation
/// is: run the earlier hook, ask for the search address of the query, report
/// the failure in one line that names the address and the reason. Then it
/// has returned: whatever is reported after that brings no further action.
pub proof fn lemma_open_failure_is_reported(
    payload: PayloadView,
    query: Seq<char>,
    reason: Seq<char>,
    later: Seq<EventView>,
)
    requires
        payload.message() is Some,
    ensures
        actions_of(
            payload,
            query,
            seq![EventView::PriorReturned, EventView::OpenFailed(reason)] + later,
        ) == seq![
            ActionView::RunPrior,
            ActionView::Open(search_url_of(query)),
            ActionView::Report(failure_line_of(search_url_of(query), reason)),
        ],
{
    let url = search_url_of(query);
    let events = seq![EventView::PriorReturned, EventView::OpenFailed(reason)] + later;
    let after_prior = events.drop_first();
    let after_open = after_prior.drop_first();
    assert(events[0] == EventView::PriorReturned);
    assert(after_prior[0] == EventView::OpenFailed(reason));
    assert(actions_from(StageView::Returned, query, after_open) == Seq::<ActionView>::empty());
    assert(actions_from(StageView::Opening(url), query, after_prior) == seq![
        ActionView::Report(failure_line_of(url, reason)),
    ] + Seq::<ActionView>::empty());
    assert(actions_from(StageView::PriorRunning(payload), query, events) == seq![
        ActionView::Open(url),
    ] + (seq![ActionView::Report(failure_line_of(url, reason))] + Seq::<ActionView>::empty()));
    assert(actions_of(payload, query, events) =~= seq![
        ActionView::RunPrior,
        ActionView::Open(url),
        ActionView::Report(failure_line_of(url, reason)),
    ]);
}

/// Where the payload holds a message and the opener succeeds, the
/// invocation is: run the earlier hook, ask for the search address of the
/// query, return.
pub proof fn lemma_open_success_returns(
    payload: PayloadView,
    query: Seq<char>,
    later: Seq<EventView>,
)
    requires
        payload.message() is Some,
    ensures
        actions_of(payload, query, seq![EventView::PriorReturned, EventView::Opened] + later)
            == seq![
            ActionView::RunPrior,
            ActionView::Open(search_url_of(query)),
            ActionView::Done,
        ],
{
    let url = search_url_of(query);
    let events = seq![EventView::PriorReturned, EventView::Opened] + later;
    let after_prior = events.drop_first();
    let after_open = after_prior.drop_first();
    assert(events[0] == EventView::PriorReturned);
    assert(after_prior[0] == EventView::Opened);
    assert(actions_from(StageView::Returned, query, after_open) == Seq::<ActionView>::empty());
    assert(actions_from(StageView::Opening(url), query, after_prior) == seq![ActionView::Done]
        + Seq::<ActionView>::empty());
    assert(actions_from(StageView::PriorRunning(payload), query, events) == seq![
        ActionView::Open(url),
    ] + (seq![ActionView::Done] + Seq::<ActionView>::empty()));
    assert(actions_of(payload, query, events) =~= seq![
        ActionView::RunPrior,
        ActionView::Open(url),
        ActionView::Done,
    ]);
}

} // verus!
