//! The dispatch table: token to delivery handle, at most one handle per
//! token. It is owned and mutated by the dispatch engine alone; the handle
//! type is whatever the surrounding runtime delivers through.

use std::collections::HashMap;
use vstd::prelude::*;

verus! {

broadcast use vstd::std_specs::hash::group_hash_axioms;

/// Mapping from correlation token to the delivery handle registered for it.
pub struct DispatchTable<V> {
    handles: HashMap<u32, V>,
}

impl<V> View for DispatchTable<V> {
    type V = Map<u32, V>;

    closed spec fn view(&self) -> Map<u32, V> {
        self.handles@
    }
}

impl<V> DispatchTable<V> {
    /// An empty table: no token is routable.
    pub fn new() -> (r: Self)
        ensures
            r@ == Map::<u32, V>::empty(),
    {
        DispatchTable { handles: HashMap::new() }
    }

    /// Registers `handle` for `token`, overwriting any prior registration of
    /// that token.
    pub fn insert(&mut self, token: u32, handle: V)
        ensures
            final(self)@ == old(self)@.insert(token, handle),
    {
        self.handles.insert(token, handle);
    }

    /// Deregisters `token`; an absent token is a silent no-op.
    pub fn remove(&mut self, token: u32)
        ensures
            final(self)@ == old(self)@.remove(token),
    {
        self.handles.remove(&token);
    }

    /// The handle registered for `token`, or `None` where the token is not
    /// currently registered.
    pub fn get(&self, token: u32) -> (r: Option<&V>)
        ensures
            match r {
                Some(h) => self@.contains_key(token) && *h == self@[token],
                None => !self@.contains_key(token),
            },
    {
        self.handles.get(&token)
    }

    /// Whether `token` is currently registered.
    pub fn contains(&self, token: u32) -> (r: bool)
        ensures
            r == self@.contains_key(token),
    {
        self.handles.contains_key(&token)
    }

    /// Discards every registration: each handle is dropped, which is how a
    /// still-registered caller observes closure.
    pub fn clear(&mut self)
        ensures
            final(self)@ == Map::<u32, V>::empty(),
    {
        self.handles.clear();
    }
}

} // verus!
