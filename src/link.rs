//! Link groups: a shared store, keyed by link identifier, through which
//! independent plots exchange viewport or cursor state.
use std::collections::HashMap;
use vstd::prelude::*;

verus! {

broadcast use vstd::std_specs::hash::group_hash_axioms;

/// A store from link identifier to the state last written under it.
#[verifier::reject_recursive_types(V)]
pub struct LinkGroups<V> {
    groups: HashMap<u64, V>,
}

impl<V> LinkGroups<V> {
    /// The state under each identifier.
    pub closed spec fn view(&self) -> Map<u64, V> {
        self.groups@
    }

    /// An empty store.
    pub fn new() -> (r: Self)
        ensures
            r.view() == Map::<u64, V>::empty(),
    {
        LinkGroups { groups: HashMap::new() }
    }

    /// Stores `value` under `id`, replacing what was there.
    pub fn write(&mut self, id: u64, value: V)
        ensures
            final(self).view() == old(self).view().insert(id, value),
    {
        self.groups.insert(id, value);
    }

    /// The state last stored under `id`, if any.
    pub fn read(&self, id: u64) -> (r: Option<&V>)
        ensures
            r.is_some() <==> self.view().contains_key(id),
            r.is_some() ==> *r.unwrap() == self.view()[id],
    {
        self.groups.get(&id)
    }

    /// Forgets the state under `id`, returning it.
    pub fn remove(&mut self, id: u64) -> (r: Option<V>)
        ensures
            final(self).view() == old(self).view().remove(id),
            r.is_some() <==> old(self).view().contains_key(id),
            r.is_some() ==> r.unwrap() == old(self).view()[id],
    {
        self.groups.remove(&id)
    }
}

/// What a plot writes under a link identifier is what the next plot that
/// reads it sees, and a write leaves the other identifiers untouched.
pub proof fn lemma_last_writer_wins<V>(before: Map<u64, V>, id: u64, value: V, other: u64)
    requires
        other != id,
    ensures
        before.insert(id, value).contains_key(id),
        before.insert(id, value)[id] == value,
        before.insert(id, value).contains_key(other) == before.contains_key(other),
        before.contains_key(other) ==> before.insert(id, value)[other] == before[other],
{
}

} // verus!
