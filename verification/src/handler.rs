//! The pipeline that turns one raw request into one reply.
//!
//! A request is decoded into a typed input, the input is handed to the
//! application's computation, the result is encoded, and a reply is issued.
//! Decoding, computing and encoding can each fail; every failure becomes a
//! [`ProtocolError`] that is delivered in place of the result, so a request is
//! never dropped without a reply.
//!
//! The pipeline itself neither decodes nor computes nor sends. It decides: its
//! driver reports what happened as a [`PipelineEvent`] and is told what to do
//! next as a [`PipelineAction`].

use crate::error::{compute_failure, decode_failure, encode_failure, ProtocolError, ProtocolErrorView};
use bytes::Bytes;
use vstd::prelude::*;

verus! {

/// How far the processing of one request has come.
#[derive(Debug, Clone, Copy, PartialEq, Eq, Structural)]
pub enum PipelineState {
    /// The payload is being decoded.
    Decoding,
    /// The application's computation is running.
    Computing,
    /// The result is being encoded.
    Encoding,
    /// A reply has been handed out and its delivery is awaited.
    Responding,
    /// Delivery has been reported; nothing is left to do.
    Done,
}

/// What the driver reports to the pipeline. `I` is the typed input, `O` the
/// typed output and `E` the transport's delivery error; a failed step carries
/// the failing party's own message.
#[derive(Debug)]
pub enum PipelineEvent<I, O, E> {
    Decoded(Result<I, String>),
    Computed(Result<O, String>),
    Encoded(Result<Bytes, String>),
    Delivered(Result<(), E>),
}

/// What the pipeline tells the driver to do next.
#[derive(Debug, PartialEq, Eq)]
pub enum PipelineAction<I, O, E> {
    /// Run the computation on this input.
    Compute(I),
    /// Encode this result.
    Encode(O),
    /// Send this reply to the requester.
    Respond(Result<Bytes, ProtocolError>),
    /// Processing is over; this is the delivery's outcome.
    Finish(Result<(), E>),
    /// The event does not belong to the current state and was ignored.
    Rejected,
}

/// The mathematical content of a [`PipelineEvent`].
pub enum PipelineEventView<I, O, E> {
    Decoded(Result<I, Seq<char>>),
    Computed(Result<O, Seq<char>>),
    Encoded(Result<Bytes, Seq<char>>),
    Delivered(Result<(), E>),
}

/// The mathematical content of a [`PipelineAction`].
pub enum PipelineActionView<I, O, E> {
    Compute(I),
    Encode(O),
    Respond(Result<Bytes, ProtocolErrorView>),
    Finish(Result<(), E>),
    Rejected,
}

impl<I, O, E> View for PipelineEvent<I, O, E> {
    type V = PipelineEventView<I, O, E>;

    open spec fn view(&self) -> PipelineEventView<I, O, E> {
        match *self {
            PipelineEvent::Decoded(Ok(input)) => PipelineEventView::Decoded(Ok(input)),
            PipelineEvent::Decoded(Err(detail)) => PipelineEventView::Decoded(Err(detail@)),
            PipelineEvent::Computed(Ok(output)) => PipelineEventView::Computed(Ok(output)),
            PipelineEvent::Computed(Err(detail)) => PipelineEventView::Computed(Err(detail@)),
            PipelineEvent::Encoded(Ok(body)) => PipelineEventView::Encoded(Ok(body)),
            PipelineEvent::Encoded(Err(detail)) => PipelineEventView::Encoded(Err(detail@)),
            PipelineEvent::Delivered(outcome) => PipelineEventView::Delivered(outcome),
        }
    }
}

impl<I, O, E> View for PipelineAction<I, O, E> {
    type V = PipelineActionView<I, O, E>;

    open spec fn view(&self) -> PipelineActionView<I, O, E> {
        match *self {
            PipelineAction::Compute(input) => PipelineActionView::Compute(input),
            PipelineAction::Encode(output) => PipelineActionView::Encode(output),
            PipelineAction::Respond(Ok(body)) => PipelineActionView::Respond(Ok(body)),
            PipelineAction::Respond(Err(error)) => PipelineActionView::Respond(Err(error@)),
            PipelineAction::Finish(outcome) => PipelineActionView::Finish(outcome),
            PipelineAction::Rejected => PipelineActionView::Rejected,
        }
    }
}

/// The pipeline's transition: the state that follows `state` on `event`, and
/// the action that the driver is given.
pub open spec fn transition<I, O, E>(state: PipelineState, event: PipelineEventView<I, O, E>) -> (
    PipelineState,
    PipelineActionView<I, O, E>,
) {
    match (state, event) {
        (PipelineState::Decoding, PipelineEventView::Decoded(Ok(input))) => (
            PipelineState::Computing,
            PipelineActionView::Compute(input),
        ),
        (PipelineState::Decoding, PipelineEventView::Decoded(Err(detail))) => (
            PipelineState::Responding,
            PipelineActionView::Respond(Err(decode_failure(detail))),
        ),
        (PipelineState::Computing, PipelineEventView::Computed(Ok(output))) => (
            PipelineState::Encoding,
            PipelineActionView::Encode(output),
        ),
        (PipelineState::Computing, PipelineEventView::Computed(Err(detail))) => (
            PipelineState::Responding,
            PipelineActionView::Respond(Err(compute_failure(detail))),
        ),
        (PipelineState::Encoding, PipelineEventView::Encoded(Ok(body))) => (
            PipelineState::Responding,
            PipelineActionView::Respond(Ok(body)),
        ),
        (PipelineState::Encoding, PipelineEventView::Encoded(Err(detail))) => (
            PipelineState::Responding,
            PipelineActionView::Respond(Err(encode_failure(detail))),
        ),
        (PipelineState::Responding, PipelineEventView::Delivered(outcome)) => (
            PipelineState::Done,
            PipelineActionView::Finish(outcome),
        ),
        _ => (state, PipelineActionView::Rejected),
    }
}

/// The processing of one request, from its arrival to the report of its
/// reply's delivery.
#[derive(Debug)]
pub struct Pipeline {
    state: PipelineState,
}

impl View for Pipeline {
    type V = PipelineState;

    closed spec fn view(&self) -> PipelineState {
        self.state
    }
}

impl Pipeline {
    /// A pipeline for a request that has just arrived.
    pub fn new() -> (pipeline: Pipeline)
        ensures
            pipeline@ == PipelineState::Decoding,
    {
        Pipeline { state: PipelineState::Decoding }
    }

    /// The state that the pipeline is in.
    pub fn state(&self) -> (state: PipelineState)
        ensures
            state == self@,
    {
        self.state
    }

    /// Takes the report of what happened and decides what is done next.
    pub fn step<I, O, E>(&mut self, event: PipelineEvent<I, O, E>) -> (action: PipelineAction<
        I,
        O,
        E,
    >)
        ensures
            (final(self)@, action@) == transition(old(self)@, event@),
    {
        match self.state {
            PipelineState::Decoding => match event {
                PipelineEvent::Decoded(Ok(input)) => {
                    self.state = PipelineState::Computing;
                    PipelineAction::Compute(input)
                },
                PipelineEvent::Decoded(Err(detail)) => {
                    self.state = PipelineState::Responding;
                    PipelineAction::Respond(Err(ProtocolError::decode_failure(detail.as_str())))
                },
                _ => PipelineAction::Rejected,
            },
            PipelineState::Computing => match event {
                PipelineEvent::Computed(Ok(output)) => {
                    self.state = PipelineState::Encoding;
                    PipelineAction::Encode(output)
                },
                PipelineEvent::Computed(Err(detail)) => {
                    self.state = PipelineState::Responding;
                    PipelineAction::Respond(Err(ProtocolError::compute_failure(detail.as_str())))
                },
                _ => PipelineAction::Rejected,
            },
            PipelineState::Encoding => match event {
                PipelineEvent::Encoded(Ok(body)) => {
                    self.state = PipelineState::Responding;
                    PipelineAction::Respond(Ok(body))
                },
                PipelineEvent::Encoded(Err(detail)) => {
                    self.state = PipelineState::Responding;
                    PipelineAction::Respond(Err(ProtocolError::encode_failure(detail.as_str())))
                },
                _ => PipelineAction::Rejected,
            },
            PipelineState::Responding => match event {
                PipelineEvent::Delivered(outcome) => {
                    self.state = PipelineState::Done;
                    PipelineAction::Finish(outcome)
                },
                _ => PipelineAction::Rejected,
            },
            PipelineState::Done => PipelineAction::Rejected,
        }
    }
}


/// The state that a fresh pipeline is in after it has taken `events` in order.
pub open spec fn state_after<I, O, E>(events: Seq<PipelineEventView<I, O, E>>) -> PipelineState
    decreases events.len(),
{
    if events.len() == 0 {
        PipelineState::Decoding
    } else {
        transition(state_after(events.drop_last()), events.last()).0
    }
}

/// The action that a fresh pipeline answers the event at position `k` with,
/// having taken the events before it.
pub open spec fn action_at<I, O, E>(
    events: Seq<PipelineEventView<I, O, E>>,
    k: int,
) -> PipelineActionView<I, O, E> {
    transition(state_after(events.take(k)), events[k]).1
}

/// The replies that a fresh pipeline hands out while it takes `events`, in the
/// order in which it hands them out.
pub open spec fn replies<I, O, E>(events: Seq<PipelineEventView<I, O, E>>) -> Seq<
    Result<Bytes, ProtocolErrorView>,
>
    decreases events.len(),
{
    if events.len() == 0 {
        Seq::empty()
    } else {
        let earlier = replies(events.drop_last());
        match transition(state_after(events.drop_last()), events.last()).1 {
            PipelineActionView::Respond(reply) => earlier.push(reply),
            _ => earlier,
        }
    }
}

/// Whether a reply has been handed out in this state.
pub open spec fn has_replied(state: PipelineState) -> bool {
    state == PipelineState::Responding || state == PipelineState::Done
}

proof fn lemma_one_more_event<I, O, E>(events: Seq<PipelineEventView<I, O, E>>, k: int)
    requires
        0 <= k < events.len(),
    ensures
        state_after(events.take(k + 1)) == transition(state_after(events.take(k)), events[k]).0,
        replies(events.take(k + 1)) == match action_at(events, k) {
            PipelineActionView::Respond(reply) => replies(events.take(k)).push(reply),
            _ => replies(events.take(k)),
        },
{
    assert(events.take(k + 1).drop_last() =~= events.take(k));
    assert(events.take(k + 1).last() == events[k]);
}

proof fn lemma_settled_after_reply<I, O, E>(events: Seq<PipelineEventView<I, O, E>>, m: int, n: int)
    requires
        0 <= m <= n <= events.len(),
        has_replied(state_after(events.take(m))),
    ensures
        has_replied(state_after(events.take(n))),
        replies(events.take(n)) == replies(events.take(m)),
        forall|k: int|
            m <= k < n ==> !(#[trigger] action_at(events, k) is Compute) && !(action_at(
                events,
                k,
            ) is Encode) && !(action_at(events, k) is Respond),
    decreases n - m,
{
    if m < n {
        lemma_settled_after_reply(events, m, n - 1);
        lemma_one_more_event(events, n - 1);
    }
}

/// A request gets exactly one reply: none while it is decoded, computed and
/// encoded, one from the moment its processing has left those three steps, and
/// never a second one, whatever is reported to the pipeline.
pub proof fn law_exactly_one_reply<I, O, E>(events: Seq<PipelineEventView<I, O, E>>)
    ensures
        replies(events).len() == (if has_replied(state_after(events)) {
            1nat
        } else {
            0nat
        }),
    decreases events.len(),
{
    if events.len() > 0 {
        law_exactly_one_reply(events.drop_last());
    }
}

/// The processing of a request finishes only after its reply has been handed
/// out: where the pipeline answers an event by finishing, the events before it
/// had made it hand out the request's one reply.
pub proof fn law_finish_follows_reply<I, O, E>(events: Seq<PipelineEventView<I, O, E>>, k: int)
    requires
        0 <= k < events.len(),
        action_at(events, k) is Finish,
    ensures
        state_after(events.take(k)) == PipelineState::Responding,
        replies(events.take(k)).len() == 1,
        events[k] is Delivered,
{
    law_exactly_one_reply(events.take(k));
}

/// A payload that fails to decode never reaches the computation: the pipeline
/// answers the failure with the one reply of the request, which carries code
/// 400 and the decoder's message, and asks for neither a computation nor an
/// encoding afterwards.
pub proof fn law_decode_failure_never_computes<I, O, E>(
    events: Seq<PipelineEventView<I, O, E>>,
    detail: Seq<char>,
)
    requires
        events.len() >= 1,
        events[0] == PipelineEventView::<I, O, E>::Decoded(Err(detail)),
    ensures
        replies(events) == seq![Err::<Bytes, ProtocolErrorView>(decode_failure(detail))],
        decode_failure(detail).code == 400,
        has_replied(state_after(events)),
        forall|k: int|
            0 <= k < events.len() ==> !(#[trigger] action_at(events, k) is Compute) && !(action_at(
                events,
                k,
            ) is Encode),
{
    assert(events.take(0) =~= Seq::empty());
    lemma_one_more_event(events, 0);
    lemma_settled_after_reply(events, 1, events.len() as int);
    assert(events.take(events.len() as int) =~= events);
    assert(replies(events.take(1)) =~= seq![
        Err::<Bytes, ProtocolErrorView>(decode_failure(detail)),
    ]);
}

/// A computation that fails still gets the request its one reply, with code
/// 500 and the handler's message, and that reply is handed out for delivery.
pub proof fn law_compute_failure_is_answered<I, O, E>(
    events: Seq<PipelineEventView<I, O, E>>,
    input: I,
    detail: Seq<char>,
)
    requires
        events.len() >= 2,
        events[0] == PipelineEventView::<I, O, E>::Decoded(Ok(input)),
        events[1] == PipelineEventView::<I, O, E>::Computed(Err(detail)),
    ensures
        replies(events) == seq![Err::<Bytes, ProtocolErrorView>(compute_failure(detail))],
        compute_failure(detail).code == 500,
        action_at(events, 1) == PipelineActionView::<I, O, E>::Respond(
            Err(compute_failure(detail)),
        ),
        has_replied(state_after(events)),
{
    assert(events.take(0) =~= Seq::empty());
    lemma_one_more_event(events, 0);
    lemma_one_more_event(events, 1);
    lemma_settled_after_reply(events, 2, events.len() as int);
    assert(events.take(events.len() as int) =~= events);
    assert(replies(events.take(2)) =~= seq![
        Err::<Bytes, ProtocolErrorView>(compute_failure(detail)),
    ]);
}

/// A result that fails to encode still gets the request its one reply, with
/// code 500 and the encoder's message, and that reply is handed out for
/// delivery.
pub proof fn law_encode_failure_is_answered<I, O, E>(
    events: Seq<PipelineEventView<I, O, E>>,
    input: I,
    output: O,
    detail: Seq<char>,
)
    requires
        events.len() >= 3,
        events[0] == PipelineEventView::<I, O, E>::Decoded(Ok(input)),
        events[1] == PipelineEventView::<I, O, E>::Computed(Ok(output)),
        events[2] == PipelineEventView::<I, O, E>::Encoded(Err(detail)),
    ensures
        replies(events) == seq![Err::<Bytes, ProtocolErrorView>(encode_failure(detail))],
        encode_failure(detail).code == 500,
        action_at(events, 2) == PipelineActionView::<I, O, E>::Respond(
            Err(encode_failure(detail)),
        ),
        has_replied(state_after(events)),
{
    assert(events.take(0) =~= Seq::empty());
    lemma_one_more_event(events, 0);
    lemma_one_more_event(events, 1);
    lemma_one_more_event(events, 2);
    lemma_settled_after_reply(events, 3, events.len() as int);
    assert(events.take(events.len() as int) =~= events);
    assert(replies(events.take(3)) =~= seq![
        Err::<Bytes, ProtocolErrorView>(encode_failure(detail)),
    ]);
}

/// A request that decodes, computes and encodes is answered with the encoded
/// result and nothing else, and the outcome of that reply's delivery is what
/// the pipeline finishes with.
pub proof fn law_success_is_answered_with_the_result<I, O, E>(
    events: Seq<PipelineEventView<I, O, E>>,
    input: I,
    output: O,
    body: Bytes,
    outcome: Result<(), E>,
)
    requires
        events.len() >= 4,
        events[0] == PipelineEventView::<I, O, E>::Decoded(Ok(input)),
        events[1] == PipelineEventView::<I, O, E>::Computed(Ok(output)),
        events[2] == PipelineEventView::<I, O, E>::Encoded(Ok(body)),
        events[3] == PipelineEventView::<I, O, E>::Delivered(outcome),
    ensures
        replies(events) == seq![Ok::<Bytes, ProtocolErrorView>(body)],
        action_at(events, 0) == PipelineActionView::<I, O, E>::Compute(input),
        action_at(events, 1) == PipelineActionView::<I, O, E>::Encode(output),
        action_at(events, 2) == PipelineActionView::<I, O, E>::Respond(Ok(body)),
        action_at(events, 3) == PipelineActionView::<I, O, E>::Finish(outcome),
        state_after(events) == PipelineState::Done,
{
    assert(events.take(0) =~= Seq::empty());
    lemma_one_more_event(events, 0);
    lemma_one_more_event(events, 1);
    lemma_one_more_event(events, 2);
    lemma_one_more_event(events, 3);
    lemma_settled_after_reply(events, 3, events.len() as int);
    lemma_done_is_final(events, 4, events.len() as int);
    assert(events.take(events.len() as int) =~= events);
    assert(replies(events.take(3)) =~= seq![Ok::<Bytes, ProtocolErrorView>(body)]);
}

proof fn lemma_done_is_final<I, O, E>(events: Seq<PipelineEventView<I, O, E>>, m: int, n: int)
    requires
        0 <= m <= n <= events.len(),
        state_after(events.take(m)) == PipelineState::Done,
    ensures
        state_after(events.take(n)) == PipelineState::Done,
    decreases n - m,
{
    if m < n {
        lemma_done_is_final(events, m, n - 1);
        lemma_one_more_event(events, n - 1);
    }
}

} // verus!
