//! A set of 128-bit identifiers: sessions, relays and reboot commands of one connection.
use std::collections::HashSet;
use vstd::prelude::*;

verus! {

broadcast use vstd::std_specs::hash::group_hash_axioms;

/// A finite set of identifiers.
pub struct IdSet {
    items: HashSet<u128>,
}

impl View for IdSet {
    type V = Set<u128>;

    closed spec fn view(&self) -> Set<u128> {
        self.items@
    }
}

impl IdSet {
    /// The set is finite, so its size is meaningful.
    pub closed spec fn wf(self) -> bool {
        self.items@.finite()
    }

    /// Number of identifiers held.
    pub closed spec fn size(self) -> nat {
        self.items@.len()
    }

    /// The empty set.
    pub fn new() -> (s: Self)
        ensures
            s.wf(),
            s@ == Set::<u128>::empty(),
            s.size() == 0,
    {
        IdSet { items: HashSet::new() }
    }

    pub fn len(&self) -> (n: usize)
        ensures
            n == self.size(),
    {
        self.items.len()
    }

    pub fn contains(&self, x: u128) -> (r: bool)
        ensures
            r == self@.contains(x),
    {
        self.items.contains(&x)
    }

    /// Adds `x` when it is absent; returns whether it was added.
    pub fn insert(&mut self, x: u128) -> (added: bool)
        requires
            old(self).wf(),
        ensures
            final(self).wf(),
            added == !old(self)@.contains(x),
            final(self)@ == old(self)@.insert(x),
            final(self).size() == old(self).size() + if added { 1nat } else { 0nat },
    {
        self.items.insert(x)
    }

    /// Removes `x`; returns whether it was present.
    pub fn remove(&mut self, x: u128) -> (removed: bool)
        requires
            old(self).wf(),
        ensures
            final(self).wf(),
            removed == old(self)@.contains(x),
            final(self)@ == old(self)@.remove(x),
            final(self).size() == old(self).size() - if removed { 1nat } else { 0nat },
    {
        self.items.remove(&x)
    }
}

} // verus!
