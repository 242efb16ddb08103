//! The state-transition event adapter.
//!
//! The state-storage primitive keeps the active state and a pending "next
//! state" slot; the surrounding scheduler applies and clears the slot at a
//! fixed point of the tick.  Consumers need a one-shot notification exactly
//! when a transition was requested, observed before the slot is cleared, so
//! setup and teardown run exactly once instead of every tick of the new
//! state.  The adapter polls the slot once per tick, immediately before it
//! is applied, and broadcasts a parameterless notification if a transition
//! is pending: at most once per actual change, never on a tick without one.
//!
//! The adapter is generic over any enumerable state type.

use core::marker::PhantomData;
use vstd::prelude::*;

verus! {

/// The parameterless "a transition of state type `S` occurred"
/// notification; consumers re-read the current state.
#[derive(Debug)]
pub struct StateTransitionEvent<S>(pub PhantomData<S>);

impl<S> Default for StateTransitionEvent<S> {
    fn default() -> (r: Self)
        ensures
            r == StateTransitionEvent::<S>(PhantomData),
    {
        StateTransitionEvent(PhantomData)
    }
}

/// The state-storage primitive: the active state and the pending next
/// state, a one-shot command consumed at most once per tick.
pub struct StateStore<S> {
    pub current: S,
    pub pending: Option<S>,
}

/// The store after a transition request: the request overwrites whatever
/// was pending (last writer wins within a tick).
pub open spec fn spec_requested<S>(store: StateStore<S>, s: S) -> StateStore<S> {
    StateStore { current: store.current, pending: Some(s) }
}

/// The store after the scheduler applies and clears the pending slot.
pub open spec fn spec_applied<S>(store: StateStore<S>) -> StateStore<S> {
    match store.pending {
        Some(s) => StateStore { current: s, pending: None },
        None => store,
    }
}

/// Whether the adapter's poll fires on a store: exactly when a transition
/// is pending.
pub open spec fn spec_fires<S>(store: StateStore<S>) -> bool {
    store.pending is Some
}

impl<S: Copy> StateStore<S> {
    /// A store resting in `initial` with nothing pending.
    pub fn new(initial: S) -> (r: StateStore<S>)
        ensures
            r.current == initial,
            r.pending is None,
    {
        StateStore { current: initial, pending: None }
    }

    /// Requests a transition to `s`, to be applied at the end of the tick.
    pub fn request(&mut self, s: S)
        ensures
            *final(self) == spec_requested(*old(self), s),
    {
        self.pending = Some(s);
    }

    /// Polls the pending slot, then lets the scheduler apply and clear it;
    /// reports whether the one-shot notification fires this tick.
    ///
    /// The notification fires exactly when a transition was requested since
    /// the previous tick, so it fires at most once per actual change and
    /// never on a tick without one, and it is observed before any
    /// state-specific entry logic can run in the new state.
    pub fn detect_and_apply(&mut self) -> (fired: Option<StateTransitionEvent<S>>)
        ensures
            fired is Some <==> spec_fires(*old(self)),
            *final(self) == spec_applied(*old(self)),
            final(self).pending is None,
    {
        let fired = if self.pending.is_some() {
            Some(StateTransitionEvent(PhantomData))
        } else {
            None
        };
        if let Some(s) = self.pending {
            self.current = s;
            self.pending = None;
        }
        fired
    }
}

/// One request, one notification: the poll fires on the tick that observes
/// the request, the applied store carries the requested state, and no later
/// poll fires unless a new request is made.  A tick with nothing pending
/// never fires.
pub proof fn lemma_notification_once<S>(store: StateStore<S>, s: S)
    ensures
        spec_fires(spec_requested(store, s)),
        !spec_fires(spec_applied(spec_requested(store, s))),
        spec_applied(spec_requested(store, s)).current == s,
        store.pending is None ==> !spec_fires(store) && spec_applied(store) == store,
{
}

} // verus!
