//! The per-endpoint adapter: one request at a time.
//!
//! An adapter stands between one source of raw requests and one handler. It
//! takes a request from the source, has it processed to completion, emits the
//! outcome, and only then takes the next request. Requests to one endpoint are
//! therefore processed in arrival order and never overlap, and the adapter's
//! outcomes end when its source does.
//!
//! The adapter does not poll anything itself. Its driver asks it what to poll
//! ([`EndpointHandler::directive`]), polls, and reports the result as an
//! [`AdapterEvent`]; the adapter answers with an [`AdapterAction`].

use vstd::prelude::*;

verus! {

/// What an adapter is doing.
#[derive(Debug, Clone, Copy, PartialEq, Eq, Structural)]
pub enum AdapterState {
    /// No computation is pending; the next request is awaited.
    AwaitingRequest,
    /// The processing of exactly one request is in flight.
    Computing,
    /// The source has ended, and with it the adapter's outcomes.
    Terminated,
}

/// What the driver is to poll when the adapter is resumed.
#[derive(Debug, Clone, Copy, PartialEq, Eq, Structural)]
pub enum Directive {
    /// Ask the source for the next request.
    PollSource,
    /// Poll the processing that is in flight.
    PollInvocation,
    /// Poll nothing: the adapter has terminated.
    Stop,
}

/// What the driver reports to the adapter. `R` is a raw request and `D` the
/// outcome of processing one.
#[derive(Debug)]
pub enum AdapterEvent<R, D> {
    /// The source had this request.
    SourceReady(R),
    /// The source has ended.
    SourceExhausted,
    /// The source has no request yet.
    SourcePending,
    /// The processing in flight is not complete yet.
    InvocationPending,
    /// The processing in flight is complete, with this outcome.
    InvocationComplete(D),
}

/// What the adapter tells the driver to do.
#[derive(Debug, PartialEq, Eq)]
pub enum AdapterAction<R, D> {
    /// Start processing this request, and resume the adapter at once.
    Start(R),
    /// Hand this outcome out as the adapter's next value.
    Emit(D),
    /// Suspend until what was polled makes progress.
    Suspend,
    /// End the adapter's outcomes.
    Finish,
    /// The event is not one that the adapter asked for and was ignored.
    Rejected,
}

/// What is polled in a state.
pub open spec fn directive_of(state: AdapterState) -> Directive {
    match state {
        AdapterState::AwaitingRequest => Directive::PollSource,
        AdapterState::Computing => Directive::PollInvocation,
        AdapterState::Terminated => Directive::Stop,
    }
}

/// Whether `event` reports on what the adapter asked to be polled in `state`.
pub open spec fn answers<R, D>(state: AdapterState, event: AdapterEvent<R, D>) -> bool {
    match directive_of(state) {
        Directive::PollSource => event is SourceReady || event is SourceExhausted
            || event is SourcePending,
        Directive::PollInvocation => event is InvocationPending || event is InvocationComplete,
        Directive::Stop => false,
    }
}

/// The adapter's transition: the state that follows `state` on `event`, and
/// the action that the driver is given.
pub open spec fn advance<R, D>(state: AdapterState, event: AdapterEvent<R, D>) -> (
    AdapterState,
    AdapterAction<R, D>,
) {
    match (state, event) {
        (AdapterState::AwaitingRequest, AdapterEvent::SourceReady(request)) => (
            AdapterState::Computing,
            AdapterAction::Start(request),
        ),
        (AdapterState::AwaitingRequest, AdapterEvent::SourceExhausted) => (
            AdapterState::Terminated,
            AdapterAction::Finish,
        ),
        (AdapterState::AwaitingRequest, AdapterEvent::SourcePending) => (
            AdapterState::AwaitingRequest,
            AdapterAction::Suspend,
        ),
        (AdapterState::Computing, AdapterEvent::InvocationPending) => (
            AdapterState::Computing,
            AdapterAction::Suspend,
        ),
        (AdapterState::Computing, AdapterEvent::InvocationComplete(outcome)) => (
            AdapterState::AwaitingRequest,
            AdapterAction::Emit(outcome),
        ),
        (AdapterState::Terminated, _) => (AdapterState::Terminated, AdapterAction::Finish),
        _ => (state, AdapterAction::Rejected),
    }
}

/// The adapter of one endpoint.
#[derive(Debug)]
pub struct EndpointHandler {
    state: AdapterState,
}

impl View for EndpointHandler {
    type V = AdapterState;

    closed spec fn view(&self) -> AdapterState {
        self.state
    }
}

impl EndpointHandler {
    /// An adapter that has not taken a request yet.
    pub fn new() -> (adapter: EndpointHandler)
        ensures
            adapter@ == AdapterState::AwaitingRequest,
    {
        EndpointHandler { state: AdapterState::AwaitingRequest }
    }

    /// The state that the adapter is in.
    pub fn state(&self) -> (state: AdapterState)
        ensures
            state == self@,
    {
        self.state
    }

    /// What the driver is to poll next. While a request is being processed
    /// this is never the source.
    pub fn directive(&self) -> (directive: Directive)
        ensures
            directive == directive_of(self@),
    {
        match self.state {
            AdapterState::AwaitingRequest => Directive::PollSource,
            AdapterState::Computing => Directive::PollInvocation,
            AdapterState::Terminated => Directive::Stop,
        }
    }

    /// Takes the report of what a poll gave and decides what is done with it.
    pub fn step<R, D>(&mut self, event: AdapterEvent<R, D>) -> (action: AdapterAction<R, D>)
        ensures
            (final(self)@, action) == advance(old(self)@, event),
    {
        match self.state {
            AdapterState::AwaitingRequest => match event {
                AdapterEvent::SourceReady(request) => {
                    self.state = AdapterState::Computing;
                    AdapterAction::Start(request)
                },
                AdapterEvent::SourceExhausted => {
                    self.state = AdapterState::Terminated;
                    AdapterAction::Finish
                },
                AdapterEvent::SourcePending => AdapterAction::Suspend,
                _ => AdapterAction::Rejected,
            },
            AdapterState::Computing => match event {
                AdapterEvent::InvocationPending => AdapterAction::Suspend,
                AdapterEvent::InvocationComplete(outcome) => {
                    self.state = AdapterState::AwaitingRequest;
                    AdapterAction::Emit(outcome)
                },
                _ => AdapterAction::Rejected,
            },
            AdapterState::Terminated => AdapterAction::Finish,
        }
    }
}

/// The state that a fresh adapter is in after it has taken `events` in order.
pub open spec fn state_after<R, D>(events: Seq<AdapterEvent<R, D>>) -> AdapterState
    decreases events.len(),
{
    if events.len() == 0 {
        AdapterState::AwaitingRequest
    } else {
        advance(state_after(events.drop_last()), events.last()).0
    }
}

/// The action that a fresh adapter answers the event at position `k` with,
/// having taken the events before it.
pub open spec fn action_at<R, D>(events: Seq<AdapterEvent<R, D>>, k: int) -> AdapterAction<R, D> {
    advance(state_after(events.take(k)), events[k]).1
}

/// Whether every one of `events` reports on what the adapter had asked to be
/// polled: the run of a driver that follows the adapter's directives.
pub open spec fn conforming<R, D>(events: Seq<AdapterEvent<R, D>>) -> bool
    decreases events.len(),
{
    events.len() == 0 || (conforming(events.drop_last()) && answers(
        state_after(events.drop_last()),
        events.last(),
    ))
}

/// The requests that the source delivered, in order of arrival.
pub open spec fn arrivals<R, D>(events: Seq<AdapterEvent<R, D>>) -> Seq<R>
    decreases events.len(),
{
    if events.len() == 0 {
        Seq::empty()
    } else {
        match events.last() {
            AdapterEvent::SourceReady(request) => arrivals(events.drop_last()).push(request),
            _ => arrivals(events.drop_last()),
        }
    }
}

/// The outcomes with which processing completed, in order of completion.
pub open spec fn completions<R, D>(events: Seq<AdapterEvent<R, D>>) -> Seq<D>
    decreases events.len(),
{
    if events.len() == 0 {
        Seq::empty()
    } else {
        match events.last() {
            AdapterEvent::InvocationComplete(outcome) => completions(events.drop_last()).push(
                outcome,
            ),
            _ => completions(events.drop_last()),
        }
    }
}

/// The requests whose processing the adapter started, in the order in which
/// it started them.
pub open spec fn started<R, D>(events: Seq<AdapterEvent<R, D>>) -> Seq<R>
    decreases events.len(),
{
    if events.len() == 0 {
        Seq::empty()
    } else {
        match advance(state_after(events.drop_last()), events.last()).1 {
            AdapterAction::Start(request) => started(events.drop_last()).push(request),
            _ => started(events.drop_last()),
        }
    }
}

/// The outcomes that the adapter emitted, in the order in which it emitted
/// them.
pub open spec fn emitted<R, D>(events: Seq<AdapterEvent<R, D>>) -> Seq<D>
    decreases events.len(),
{
    if events.len() == 0 {
        Seq::empty()
    } else {
        match advance(state_after(events.drop_last()), events.last()).1 {
            AdapterAction::Emit(outcome) => emitted(events.drop_last()).push(outcome),
            _ => emitted(events.drop_last()),
        }
    }
}

/// Whether every completion among `events` carries the outcome that `process`
/// assigns to the request that was in flight.
pub open spec fn faithful<R, D>(events: Seq<AdapterEvent<R, D>>, process: spec_fn(R) -> D) -> bool
    decreases events.len(),
{
    events.len() == 0 || (faithful(events.drop_last(), process) && match events.last() {
        AdapterEvent::InvocationComplete(outcome) => started(events.drop_last()).len() > 0
            && outcome == process(started(events.drop_last()).last()),
        _ => true,
    })
}

/// The number of requests in flight in a state.
pub open spec fn in_flight(state: AdapterState) -> nat {
    if state == AdapterState::Computing {
        1
    } else {
        0
    }
}

proof fn lemma_prefix<R, D>(events: Seq<AdapterEvent<R, D>>, k: int)
    requires
        0 <= k < events.len(),
    ensures
        events.take(k + 1).drop_last() == events.take(k),
        events.take(k + 1).last() == events[k],
        events.take(events.len() as int) == events,
{
    assert(events.take(k + 1).drop_last() =~= events.take(k));
    assert(events.take(events.len() as int) =~= events);
}

proof fn lemma_in_flight_count<R, D>(events: Seq<AdapterEvent<R, D>>)
    ensures
        started(events).len() == emitted(events).len() + in_flight(state_after(events)),
    decreases events.len(),
{
    if events.len() > 0 {
        lemma_in_flight_count(events.drop_last());
    }
}

/// At most one request is in flight, whatever is reported to the adapter: the
/// requests started are the outcomes emitted and, while the adapter is
/// computing, one more. So when the processing of a request starts, the
/// outcome of every request before it has been emitted; and the source is
/// listened to only while nothing is in flight.
pub proof fn law_one_request_in_flight<R, D>(events: Seq<AdapterEvent<R, D>>)
    ensures
        started(events).len() == emitted(events).len() + in_flight(state_after(events)),
        forall|k: int|
            0 <= k < events.len() && #[trigger] action_at(events, k) is Start ==> started(
                events.take(k),
            ).len() == emitted(events.take(k)).len(),
        forall|k: int|
            0 <= k < events.len() && state_after(events.take(k)) == AdapterState::Computing
                && !(events[k] is InvocationComplete) ==> !(#[trigger] action_at(events, k)
                is Start) && state_after(events.take(k + 1)) == AdapterState::Computing,
{
    lemma_in_flight_count(events);
    assert forall|k: int|
        0 <= k < events.len() && #[trigger] action_at(events, k) is Start implies started(
        events.take(k),
    ).len() == emitted(events.take(k)).len() by {
        lemma_in_flight_count(events.take(k));
    }
    assert forall|k: int|
        0 <= k < events.len() && state_after(events.take(k)) == AdapterState::Computing
            && !(events[k] is InvocationComplete) implies !(#[trigger] action_at(events, k)
        is Start) && state_after(events.take(k + 1)) == AdapterState::Computing by {
        lemma_prefix(events, k);
    }
}

/// Under a driver that follows the adapter's directives, every request that
/// arrives is started and every completion is emitted, in order; and whenever
/// nothing is in flight, exactly as many outcomes have been emitted as
/// requests have arrived.
pub proof fn law_one_outcome_per_request<R, D>(events: Seq<AdapterEvent<R, D>>)
    requires
        conforming(events),
    ensures
        started(events) == arrivals(events),
        emitted(events) == completions(events),
        arrivals(events).len() == emitted(events).len() + in_flight(state_after(events)),
    decreases events.len(),
{
    lemma_in_flight_count(events);
    if events.len() > 0 {
        law_one_outcome_per_request(events.drop_last());
    }
}

/// Outcomes come in the order in which the requests arrived: where each
/// completion carries what `process` makes of the request in flight, the
/// outcomes emitted are `process` applied to the requests that arrived, one
/// for one and in the same order, up to the request still in flight.
pub proof fn law_outcomes_in_arrival_order<R, D>(
    events: Seq<AdapterEvent<R, D>>,
    process: spec_fn(R) -> D,
)
    requires
        conforming(events),
        faithful(events, process),
    ensures
        emitted(events).len() <= arrivals(events).len(),
        emitted(events) == arrivals(events).take(emitted(events).len() as int).map_values(
            process,
        ),
    decreases events.len(),
{
    law_one_outcome_per_request(events);
    if events.len() > 0 {
        let earlier = events.drop_last();
        law_outcomes_in_arrival_order(earlier, process);
        law_one_outcome_per_request(earlier);
        let done = emitted(earlier).len() as int;
        assert(emitted(events) =~= arrivals(events).take(emitted(events).len() as int).map_values(
            process,
        )) by {
            match events.last() {
                AdapterEvent::InvocationComplete(outcome) => {
                    assert(arrivals(earlier).take(done + 1) =~= arrivals(earlier).take(done).push(
                        arrivals(earlier)[done],
                    ));
                },
                AdapterEvent::SourceReady(request) => {
                    assert(arrivals(events).take(done) =~= arrivals(earlier).take(done));
                },
                _ => {},
            }
        }
    } else {
        assert(emitted(events) =~= arrivals(events).take(0).map_values(process));
    }
}

/// When the source ends, so do the outcomes: a driver that follows the
/// directives reports the end of the source only while nothing is in flight,
/// the adapter answers it by finishing, and by then it has emitted one outcome
/// for every request that arrived.
pub proof fn law_source_end_ends_outcomes<R, D>(events: Seq<AdapterEvent<R, D>>)
    requires
        conforming(events),
        events.len() > 0,
        events.last() is SourceExhausted,
    ensures
        state_after(events) == AdapterState::Terminated,
        action_at(events, events.len() - 1) == AdapterAction::<R, D>::Finish,
        emitted(events).len() == arrivals(events).len(),
        directive_of(state_after(events)) == Directive::Stop,
{
    law_one_outcome_per_request(events);
    lemma_prefix(events, events.len() - 1);
}

/// A terminated adapter stays terminated: whatever is reported to it, it
/// answers by finishing, and it neither suspends nor starts nor emits again.
pub proof fn law_terminated_is_final<R, D>(events: Seq<AdapterEvent<R, D>>, m: int, n: int)
    requires
        0 <= m <= n <= events.len(),
        state_after(events.take(m)) == AdapterState::Terminated,
    ensures
        state_after(events.take(n)) == AdapterState::Terminated,
        started(events.take(n)) == started(events.take(m)),
        emitted(events.take(n)) == emitted(events.take(m)),
        forall|k: int| m <= k < n ==> #[trigger] action_at(events, k) == AdapterAction::<R, D>::Finish,
    decreases n - m,
{
    if m < n {
        law_terminated_is_final(events, m, n - 1);
        lemma_prefix(events, n - 1);
    }
}

} // verus!
