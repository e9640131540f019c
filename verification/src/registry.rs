//! Correlation registry: the shared table that maps a correlation key to the
//! pending slot awaiting that key's response. A key present in the table
//! stands for exactly one outstanding request; registering a key that is
//! already present is rejected, so a slot can never be silently replaced and
//! lost. The registry is generic in the slot type: the embedding supplies
//! whatever one-shot completion primitive bridges its network side and its
//! owner thread.

use std::collections::HashMap;
use vstd::prelude::*;

verus! {

broadcast use vstd::std_specs::hash::group_hash_axioms;

/// The table of in-flight requests, viewed as a map from correlation key to
/// pending slot.
pub struct CorrelationRegistry<S> {
    slots: HashMap<u64, S>,
}

impl<S> View for CorrelationRegistry<S> {
    type V = Map<u64, S>;

    closed spec fn view(&self) -> Map<u64, S> {
        self.slots@
    }
}

impl<S> CorrelationRegistry<S> {
    /// A registry with nothing in flight.
    pub fn new() -> (r: Self)
        ensures
            r@ == Map::<u64, S>::empty(),
    {
        CorrelationRegistry { slots: HashMap::new() }
    }

    /// Whether `key` is registered for an outstanding request.
    pub fn contains(&self, key: u64) -> (r: bool)
        ensures
            r == self@.contains_key(key),
    {
        self.slots.contains_key(&key)
    }

    /// Registers `slot` under `key`. A key already present signals a
    /// correlation collision: the registration is rejected, the table is
    /// left as it was, and the slot comes back to the caller.
    pub fn register(&mut self, key: u64, slot: S) -> (r: Result<(), S>)
        ensures
            old(self)@.contains_key(key) ==> r == Err::<(), S>(slot) && final(self)@ == old(
                self,
            )@,
            !old(self)@.contains_key(key) ==> r == Ok::<(), S>(()) && final(self)@ == old(
                self,
            )@.insert(key, slot),
    {
        if self.slots.contains_key(&key) {
            Err(slot)
        } else {
            self.slots.insert(key, slot);
            Ok(())
        }
    }

    /// Retires `key` and hands its slot out for completion with the response.
    /// An absent key means a response for an unknown or expired request: the
    /// table is left as it was and the caller gets nothing to complete.
    pub fn fulfill(&mut self, key: u64) -> (r: Option<S>)
        ensures
            old(self)@.contains_key(key) ==> r == Some(old(self)@[key]) && final(self)@ == old(
                self,
            )@.remove(key),
            !old(self)@.contains_key(key) ==> r is None && final(self)@ == old(self)@,
    {
        self.slots.remove(&key)
    }

    /// Retires `key` without a response -- on shutdown, or when the owning
    /// connection aborted. The slot comes back so the caller can complete it
    /// with a cancellation error, or drop it.
    pub fn abandon(&mut self, key: u64) -> (r: Option<S>)
        ensures
            old(self)@.contains_key(key) ==> r == Some(old(self)@[key]) && final(self)@ == old(
                self,
            )@.remove(key),
            !old(self)@.contains_key(key) ==> r is None && final(self)@ == old(self)@,
    {
        self.fulfill(key)
    }
}

} // verus!
