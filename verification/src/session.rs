//! One endpoint from the arrival of its requests to their replies: the
//! adapter and the pipelines that it starts, seen together.
//!
//! The adapter decides when the processing of a request starts and when its
//! outcome is emitted; a pipeline decides what happens to one request in
//! between. A driver joins the two: it gives every request that the adapter
//! starts a fresh pipeline, runs that pipeline while the adapter is computing,
//! and reports the processing as complete with the outcome that the pipeline
//! finished with. This module states what then holds of the endpoint as a
//! whole.

use crate::endpoint::{advance, answers, AdapterAction, AdapterEvent, AdapterState};
use crate::handler::{has_replied, transition, PipelineActionView, PipelineEventView, PipelineState};
use vstd::prelude::*;

verus! {

/// What happens at an endpoint: something is reported to its adapter, or to
/// the pipeline of the request in flight.
pub enum SessionEvent<R, I, O, E> {
    Adapter(AdapterEvent<R, Result<(), E>>),
    Pipeline(PipelineEventView<I, O, E>),
}

/// An endpoint at one moment.
pub struct Session<E> {
    /// The state of the adapter.
    pub adapter: AdapterState,
    /// The state of the pipeline of the request that was started last.
    pub pipeline: PipelineState,
    /// The outcome that this pipeline finished with, once it has.
    pub outcome: Option<Result<(), E>>,
    /// How many requests have been started.
    pub started: nat,
    /// How many replies have been handed out for delivery.
    pub replied: nat,
}

/// An endpoint to which nothing has happened yet.
pub open spec fn opening<E>() -> Session<E> {
    Session {
        adapter: AdapterState::AwaitingRequest,
        pipeline: PipelineState::Done,
        outcome: None,
        started: 0,
        replied: 0,
    }
}

/// The endpoint after `event`. A request that the adapter starts gets a fresh
/// pipeline; what is reported to a pipeline while no request is in flight has
/// no effect.
pub open spec fn follow<R, I, O, E>(session: Session<E>, event: SessionEvent<R, I, O, E>) -> Session<
    E,
> {
    match event {
        SessionEvent::Adapter(report) => {
            let (adapter, action) = advance(session.adapter, report);
            if action is Start {
                Session {
                    adapter,
                    pipeline: PipelineState::Decoding,
                    outcome: None,
                    started: session.started + 1,
                    replied: session.replied,
                }
            } else {
                Session { adapter, ..session }
            }
        },
        SessionEvent::Pipeline(report) => {
            if session.adapter == AdapterState::Computing {
                let (pipeline, action) = transition(session.pipeline, report);
                Session {
                    adapter: session.adapter,
                    pipeline,
                    outcome: match action {
                        PipelineActionView::Finish(outcome) => Some(outcome),
                        _ => session.outcome,
                    },
                    started: session.started,
                    replied: if action is Respond {
                        session.replied + 1
                    } else {
                        session.replied
                    },
                }
            } else {
                session
            }
        },
    }
}

/// Whether a driver that joins adapter and pipeline as described may report
/// `event` to the endpoint: it reports to the adapter on what the adapter
/// asked to be polled, reports completion with what the pipeline finished
/// with, and runs a pipeline only while a request is in flight.
pub open spec fn permitted<R, I, O, E>(session: Session<E>, event: SessionEvent<R, I, O, E>) -> bool {
    match event {
        SessionEvent::Adapter(report) => answers(session.adapter, report) && (
        report matches AdapterEvent::InvocationComplete(outcome) ==> session.outcome == Some(
            outcome,
        )),
        SessionEvent::Pipeline(_) => session.adapter == AdapterState::Computing,
    }
}

/// The endpoint after `events`, in order.
pub open spec fn session_after<R, I, O, E>(events: Seq<SessionEvent<R, I, O, E>>) -> Session<E>
    decreases events.len(),
{
    if events.len() == 0 {
        opening()
    } else {
        follow(session_after(events.drop_last()), events.last())
    }
}

/// Whether every one of `events` was permitted when it happened.
pub open spec fn orderly<R, I, O, E>(events: Seq<SessionEvent<R, I, O, E>>) -> bool
    decreases events.len(),
{
    events.len() == 0 || (orderly(events.drop_last()) && permitted(
        session_after(events.drop_last()),
        events.last(),
    ))
}

/// Whether the event at position `k` makes the pipeline ask for the
/// computation of the request in flight.
pub open spec fn asks_to_compute<R, I, O, E>(events: Seq<SessionEvent<R, I, O, E>>, k: int) -> bool {
    events[k] matches SessionEvent::Pipeline(report) && session_after(events.take(k)).adapter
        == AdapterState::Computing && transition(
        session_after(events.take(k)).pipeline,
        report,
    ).1 is Compute
}

/// Whether the event at position `k` makes the adapter emit an outcome.
pub open spec fn emits<R, I, O, E>(events: Seq<SessionEvent<R, I, O, E>>, k: int) -> bool {
    events[k] matches SessionEvent::Adapter(report) && advance(
        session_after(events.take(k)).adapter,
        report,
    ).1 is Emit
}

/// The replies that are still owed: one while a request is in flight and its
/// pipeline has not handed out the reply, none otherwise.
pub open spec fn owed<E>(session: Session<E>) -> nat {
    if session.adapter == AdapterState::Computing && !has_replied(session.pipeline) {
        1
    } else {
        0
    }
}

proof fn lemma_replies_keep_up<R, I, O, E>(events: Seq<SessionEvent<R, I, O, E>>)
    requires
        orderly(events),
    ensures
        session_after(events).replied + owed(session_after(events)) == session_after(
            events,
        ).started,
        session_after(events).outcome is Some ==> session_after(events).pipeline
            == PipelineState::Done,
    decreases events.len(),
{
    if events.len() > 0 {
        lemma_replies_keep_up(events.drop_last());
    }
}

/// Requests to one endpoint are served strictly one after the other. Under a
/// driver that joins adapter and pipeline as described:
/// - when the computation for a request is asked for, the reply to every
///   request that was started before it has been handed out for delivery,
///   however long those took;
/// - when an outcome is emitted, the reply to every request started so far
///   has been handed out;
/// - at every moment, at most one reply is owed.
pub proof fn law_requests_are_served_in_series<R, I, O, E>(events: Seq<SessionEvent<R, I, O, E>>)
    requires
        orderly(events),
    ensures
        session_after(events).replied + owed(session_after(events)) == session_after(
            events,
        ).started,
        forall|k: int|
            0 <= k < events.len() && #[trigger] asks_to_compute(events, k) ==> session_after(
                events.take(k),
            ).replied == session_after(events.take(k)).started - 1,
        forall|k: int|
            0 <= k < events.len() && #[trigger] emits(events, k) ==> session_after(
                events.take(k),
            ).replied == session_after(events.take(k)).started,
{
    lemma_replies_keep_up(events);
    assert forall|k: int|
        0 <= k < events.len() && #[trigger] asks_to_compute(events, k) implies session_after(
        events.take(k),
    ).replied == session_after(events.take(k)).started - 1 by {
        lemma_orderly_prefix(events, k);
        lemma_replies_keep_up(events.take(k));
    }
    assert forall|k: int|
        0 <= k < events.len() && #[trigger] emits(events, k) implies session_after(
        events.take(k),
    ).replied == session_after(events.take(k)).started by {
        lemma_orderly_prefix(events, k);
        lemma_replies_keep_up(events.take(k));
    }
}

proof fn lemma_orderly_prefix<R, I, O, E>(events: Seq<SessionEvent<R, I, O, E>>, k: int)
    requires
        orderly(events),
        0 <= k < events.len(),
    ensures
        orderly(events.take(k)),
        permitted(session_after(events.take(k)), events[k]),
    decreases events.len(),
{
    if k == events.len() - 1 {
        assert(events.take(k) =~= events.drop_last());
    } else {
        lemma_orderly_prefix(events.drop_last(), k);
        assert(events.drop_last().take(k) =~= events.take(k));
    }
}

} // verus!
