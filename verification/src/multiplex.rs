//! The multiplexing loop's registry: many endpoint adapters under one control
//! flow.
//!
//! Adapters are registered under unique keys. The driver polls on behalf of
//! whichever adapter it likes and routes what it found to that adapter by key
//! ([`Multiplexer::dispatch`]); what one adapter is told never depends on, and
//! never changes, the state of another. An adapter leaves the registry when it
//! terminates, so the loop is over exactly when the registry is empty.

use crate::endpoint::{advance, directive_of, AdapterAction, AdapterEvent, AdapterState, Directive, EndpointHandler};
use tokio_stream::StreamMap;
use vstd::prelude::*;

verus! {

#[verifier::external_type_specification]
#[verifier::external_body]
#[verifier::reject_recursive_types(K)]
#[verifier::reject_recursive_types(V)]
pub struct ExStreamMap<K, V>(StreamMap<K, V>);

/// The adapters that a map holds, by the text of their keys. The maps of this
/// module are filled through `insert` alone, which keeps every key unique.
pub uninterp spec fn registered(map: StreamMap<String, EndpointHandler>) -> Map<
    Seq<char>,
    EndpointHandler,
>;

/// Trusted: calls `StreamMap::new`, which makes a map without entries.
#[verifier::external_body]
fn registry_new() -> (fresh: StreamMap<String, EndpointHandler>)
    ensures
        registered(fresh).dom().is_empty(),
{
    StreamMap::new()
}

/// Trusted: calls `StreamMap::is_empty`, which says whether the map has no
/// entry at all.
#[verifier::external_body]
fn registry_is_empty(map: &StreamMap<String, EndpointHandler>) -> (empty: bool)
    ensures
        empty == registered(*map).dom().is_empty(),
{
    map.is_empty()
}

/// Trusted: calls `StreamMap::contains_key`, which walks the entries and
/// compares each key with the given one by `==`; for `String` keys that is
/// equality of their text.
#[verifier::external_body]
fn registry_contains(map: &StreamMap<String, EndpointHandler>, key: &str) -> (found: bool)
    ensures
        found == registered(*map).dom().contains(key@),
{
    map.contains_key(key)
}

/// Trusted: calls `StreamMap::insert`, which removes the entry with an equal
/// key, if there is one, appends the new entry and returns the value removed.
/// The contract claims that afterwards the key stands for the new value, that
/// every other key stands for what it stood for, and that the value returned
/// is the one that the key stood for before.
#[verifier::external_body]
fn registry_insert(
    map: &mut StreamMap<String, EndpointHandler>,
    key: String,
    adapter: EndpointHandler,
) -> (previous: Option<EndpointHandler>)
    ensures
        registered(*final(map)) == registered(*old(map)).insert(key@, adapter),
        previous == (if registered(*old(map)).dom().contains(key@) {
            Some(registered(*old(map))[key@])
        } else {
            None
        }),
{
    map.insert(key, adapter)
}

/// Trusted: calls `StreamMap::remove`, which takes the entry with an equal key
/// out of the map and returns its value, or returns `None` and leaves the map
/// as it is where no key is equal. The contract claims that afterwards the key
/// stands for nothing and every other key for what it stood for.
#[verifier::external_body]
fn registry_remove(map: &mut StreamMap<String, EndpointHandler>, key: &str) -> (removed: Option<
    EndpointHandler,
>)
    ensures
        registered(*final(map)) == registered(*old(map)).remove(key@),
        removed == (if registered(*old(map)).dom().contains(key@) {
            Some(registered(*old(map))[key@])
        } else {
            None
        }),
{
    map.remove(key)
}

/// Why an adapter could not be registered.
#[derive(Debug, Clone, PartialEq, Eq)]
pub enum RegistrationError {
    /// An adapter is registered under this key already.
    DuplicateKey(String),
}

/// What the loop does with an outcome that an adapter yielded.
#[derive(Debug, Clone, Copy, PartialEq, Eq, Structural)]
pub enum LoopAction {
    /// The reply was delivered: go on.
    Continue,
    /// The reply could not be delivered: report the failure, and go on.
    ReportAndContinue,
}

/// Whether no adapter of a registry has terminated.
pub open spec fn all_live(registry: Map<Seq<char>, AdapterState>) -> bool {
    forall|key: Seq<char>| #[trigger]
        registry.dom().contains(key) ==> registry[key] != AdapterState::Terminated
}

/// The registry after an adapter in state `state` has been offered under
/// `key`: a key that is taken is not given away, and an adapter that has
/// terminated is not entered.
pub open spec fn enrol(registry: Map<Seq<char>, AdapterState>, key: Seq<char>, state: AdapterState) -> Map<
    Seq<char>,
    AdapterState,
> {
    if registry.dom().contains(key) || state == AdapterState::Terminated {
        registry
    } else {
        registry.insert(key, state)
    }
}

/// The registry after `event` has been routed to the adapter under `key`, and
/// what that adapter answered. An unknown key changes nothing and gets no
/// answer; an adapter that terminates leaves the registry.
pub open spec fn route<R, D>(
    registry: Map<Seq<char>, AdapterState>,
    key: Seq<char>,
    event: AdapterEvent<R, D>,
) -> (Map<Seq<char>, AdapterState>, Option<AdapterAction<R, D>>) {
    if registry.dom().contains(key) {
        let (next, action) = advance(registry[key], event);
        if next == AdapterState::Terminated {
            (registry.remove(key), Some(action))
        } else {
            (registry.insert(key, next), Some(action))
        }
    } else {
        (registry, None)
    }
}

/// The registry of the adapters that are multiplexed.
pub struct Multiplexer {
    registry: StreamMap<String, EndpointHandler>,
}

impl View for Multiplexer {
    type V = Map<Seq<char>, AdapterState>;

    closed spec fn view(&self) -> Map<Seq<char>, AdapterState> {
        registered(self.registry).map_values(|adapter: EndpointHandler| adapter@)
    }
}

impl Multiplexer {
    /// A registry without adapters.
    pub fn new() -> (multiplexer: Multiplexer)
        ensures
            multiplexer@ == Map::<Seq<char>, AdapterState>::empty(),
    {
        let multiplexer = Multiplexer { registry: registry_new() };
        assert(multiplexer@ =~= Map::<Seq<char>, AdapterState>::empty());
        multiplexer
    }

    /// Registers an adapter under a key. Keys are unique: a key that is taken
    /// is an error, and the adapter that holds it stays. An adapter that has
    /// terminated already has nothing left to yield and is not entered.
    pub fn register(&mut self, key: String, adapter: EndpointHandler) -> (result: Result<
        (),
        RegistrationError,
    >)
        ensures
            final(self)@ == enrol(old(self)@, key@, adapter@),
            match result {
                Ok(()) => !old(self)@.dom().contains(key@),
                Err(RegistrationError::DuplicateKey(taken)) => old(self)@.dom().contains(key@)
                    && taken@ == key@,
            },
    {
        if registry_contains(&self.registry, key.as_str()) {
            Err(RegistrationError::DuplicateKey(key))
        } else {
            match adapter.state() {
                AdapterState::Terminated => {},
                _ => {
                    let ghost before = self@;
                    registry_insert(&mut self.registry, key, adapter);
                    assert(self@ =~= before.insert(key@, adapter@));
                },
            }
            Ok(())
        }
    }

    /// Whether an adapter is registered under a key and has not terminated.
    pub fn contains_key(&self, key: &str) -> (found: bool)
        ensures
            found == self@.dom().contains(key@),
    {
        registry_contains(&self.registry, key)
    }

    /// Whether the loop is over: no adapter is left in the registry, every one
    /// that was registered having terminated.
    pub fn is_finished(&self) -> (finished: bool)
        ensures
            finished == self@.dom().is_empty(),
    {
        let finished = registry_is_empty(&self.registry);
        assert(registered(self.registry).dom() =~= self@.dom());
        finished
    }

    /// What the driver is to poll for the adapter under a key, if there is
    /// one.
    pub fn directive(&mut self, key: &str) -> (directive: Option<Directive>)
        ensures
            final(self)@ == old(self)@,
            directive == (if old(self)@.dom().contains(key@) {
                Some(directive_of(old(self)@[key@]))
            } else {
                None
            }),
    {
        let ghost before = self@;
        match registry_remove(&mut self.registry, key) {
            None => {
                assert(self@ =~= before);
                None
            },
            Some(adapter) => {
                let directive = adapter.directive();
                registry_insert(&mut self.registry, key.to_owned(), adapter);
                assert(self@ =~= before);
                Some(directive)
            },
        }
    }

    /// Routes the report of a poll to the adapter under a key and returns what
    /// that adapter decided, or `None` where no adapter is live under the key.
    /// No other adapter is touched.
    pub fn dispatch<R, D>(&mut self, key: &str, event: AdapterEvent<R, D>) -> (action: Option<
        AdapterAction<R, D>,
    >)
        ensures
            final(self)@ == route(old(self)@, key@, event).0,
            action == route(old(self)@, key@, event).1,
    {
        let ghost before = self@;
        match registry_remove(&mut self.registry, key) {
            None => {
                assert(self@ =~= before);
                None
            },
            Some(adapter) => {
                let mut adapter = adapter;
                assert(self@ =~= before.remove(key@));
                let action = adapter.step(event);
                match adapter.state() {
                    AdapterState::Terminated => {},
                    _ => {
                        registry_insert(&mut self.registry, key.to_owned(), adapter);
                        assert(self@ =~= before.insert(key@, adapter@));
                    },
                }
                Some(action)
            },
        }
    }

    /// What the loop does with an outcome that an adapter yielded: a failed
    /// delivery is reported, and the loop goes on either way.
    pub fn review<E>(outcome: &Result<(), E>) -> (action: LoopAction)
        ensures
            action == (if outcome is Err {
                LoopAction::ReportAndContinue
            } else {
                LoopAction::Continue
            }),
    {
        match outcome {
            Ok(_) => LoopAction::Continue,
            Err(_) => LoopAction::ReportAndContinue,
        }
    }
}

/// The registry holds live adapters only: neither a registration nor a routed
/// event leaves a terminated adapter in it. A registry that was built from the
/// empty one is therefore empty exactly when every adapter that was registered
/// has terminated.
pub proof fn law_registry_holds_live_adapters<R, D>(
    registry: Map<Seq<char>, AdapterState>,
    key: Seq<char>,
    state: AdapterState,
    event: AdapterEvent<R, D>,
)
    requires
        all_live(registry),
    ensures
        all_live(Map::<Seq<char>, AdapterState>::empty()),
        all_live(enrol(registry, key, state)),
        all_live(route(registry, key, event).0),
{
}

/// Termination of one endpoint does not end the loop while others remain:
/// after an event for one key, every adapter under another key is in the
/// registry as before.
pub proof fn law_others_remain<R, D>(
    registry: Map<Seq<char>, AdapterState>,
    key: Seq<char>,
    other: Seq<char>,
    event: AdapterEvent<R, D>,
)
    requires
        key != other,
    ensures
        route(registry, key, event).0.dom().contains(other) == registry.dom().contains(other),
        registry.dom().contains(other) ==> route(registry, key, event).0[other]
            == registry[other] && !route(registry, key, event).0.dom().is_empty(),
{
    if registry.dom().contains(other) {
        assert(route(registry, key, event).0.dom().contains(other));
    }
}

/// The registry after the events of `events` have been routed, in order, to
/// the adapter under `key`.
pub open spec fn route_all<R, D>(
    registry: Map<Seq<char>, AdapterState>,
    key: Seq<char>,
    events: Seq<AdapterEvent<R, D>>,
) -> Map<Seq<char>, AdapterState>
    decreases events.len(),
{
    if events.len() == 0 {
        registry
    } else {
        route(route_all(registry, key, events.drop_last()), key, events.last()).0
    }
}

/// Endpoints make progress independently of each other: whatever happens on
/// one endpoint, and however long it takes, an event for another endpoint is
/// answered as if nothing had happened. In particular an outcome that is
/// ready on one endpoint is emitted while a computation on another is still
/// pending.
pub proof fn law_endpoints_progress_independently<R, D>(
    registry: Map<Seq<char>, AdapterState>,
    busy: Seq<char>,
    happenings: Seq<AdapterEvent<R, D>>,
    ready: Seq<char>,
    event: AdapterEvent<R, D>,
)
    requires
        busy != ready,
    ensures
        route(route_all(registry, busy, happenings), ready, event).1 == route(
            registry,
            ready,
            event,
        ).1,
        route(route_all(registry, busy, happenings), ready, event).0 == route_all(
            route(registry, ready, event).0,
            busy,
            happenings,
        ),
        registry.dom().contains(ready) && registry[ready] == AdapterState::Computing ==> (
        event matches AdapterEvent::InvocationComplete(outcome) ==> route(
            route_all(registry, busy, happenings),
            ready,
            event,
        ).1 == Some(AdapterAction::<R, D>::Emit(outcome))),
    decreases happenings.len(),
{
    if happenings.len() > 0 {
        let earlier = happenings.drop_last();
        law_endpoints_progress_independently(registry, busy, earlier, ready, event);
        let before = route_all(registry, busy, earlier);
        law_others_remain(before, busy, ready, happenings.last());
        assert(route(route(before, busy, happenings.last()).0, ready, event).0 =~= route(
            route(before, ready, event).0,
            busy,
            happenings.last(),
        ).0);
    }
}

} // verus!
