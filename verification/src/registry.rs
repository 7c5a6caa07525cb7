//! The records of the live input contexts, each under the handle of its
//! context.

use std::collections::hash_map::Entry;
use std::collections::HashMap;
use vstd::prelude::*;
use crate::context::{ContextView, KimeInputContext};

verus! {

/// The handle that stands for no context at all.
pub const NULL_HANDLE: u64 = 0;

/// The records of the live input contexts. No record is ever kept under the
/// null handle.
pub struct ContextRegistry<E> {
    records: HashMap<u64, KimeInputContext<E>>,
}

impl<E> View for ContextRegistry<E> {
    type V = Map<u64, ContextView<E>>;

    closed spec fn view(&self) -> Map<u64, ContextView<E>> {
        self.records@.map_values(|record: KimeInputContext<E>| record@).remove(0)
    }
}

impl<E> ContextRegistry<E> {
    /// The null handle never has a record.
    pub proof fn lemma_null_has_no_record(&self)
        ensures
            !self@.contains_key(0),
    {
    }

    /// A registry without records.
    pub fn new() -> (registry: Self)
        ensures
            registry@ == Map::<u64, ContextView<E>>::empty(),
    {
        let registry = ContextRegistry { records: HashMap::new() };
        assert(registry@ =~= Map::<u64, ContextView<E>>::empty());
        registry
    }

    /// Binds `record` to `handle`, in place of any record bound to it before.
    /// Nothing can be bound to the null handle: then the registry stays as it
    /// is and the answer is `false`.
    pub fn create(&mut self, handle: u64, record: KimeInputContext<E>) -> (bound: bool)
        ensures
            bound == (handle != 0),
            handle != 0 ==> final(self)@ == old(self)@.insert(handle, record@),
            handle == 0 ==> final(self)@ == old(self)@,
    {
        broadcast use vstd::std_specs::hash::group_hash_axioms;

        if handle == NULL_HANDLE {
            return false;
        }
        self.records.insert(handle, record);
        assert(self@ =~= old(self)@.insert(handle, record@));
        true
    }

    /// The record bound to `handle`, if there is one. The null handle has
    /// none.
    pub fn lookup(&self, handle: u64) -> (found: Option<&KimeInputContext<E>>)
        ensures
            found.is_some() == self@.contains_key(handle),
            found.is_some() ==> found.unwrap()@ == self@[handle],
            handle == 0 ==> found.is_none(),
    {
        broadcast use vstd::std_specs::hash::group_hash_axioms;

        if handle == NULL_HANDLE {
            return None;
        }
        self.records.get(&handle)
    }

    /// The record bound to `handle`, to work on in place. What the caller
    /// leaves in it is what the registry holds afterwards; no other record
    /// changes.
    pub fn lookup_mut(&mut self, handle: u64) -> (found: Option<&mut KimeInputContext<E>>)
        ensures
            found.is_some() == old(self)@.contains_key(handle),
            found.is_some() ==> found.unwrap()@ == old(self)@[handle] && final(self)@ == old(
                self,
            )@.insert(handle, final(found.unwrap())@),
            found.is_none() ==> final(self)@ == old(self)@,
    {
        broadcast use vstd::std_specs::hash::group_hash_axioms;

        if handle == NULL_HANDLE {
            return None;
        }
        match self.records.entry(handle) {
            Entry::Occupied(entry) => {
                Some(entry.into_mut())
            },
            Entry::Vacant(_) => None,
        }
    }

    /// Takes the record bound to `handle` out of the registry and hands it
    /// over, if there is one.
    pub fn destroy(&mut self, handle: u64) -> (released: Option<KimeInputContext<E>>)
        ensures
            released.is_some() == old(self)@.contains_key(handle),
            released.is_some() ==> released.unwrap()@ == old(self)@[handle],
            final(self)@ == old(self)@.remove(handle),
    {
        broadcast use vstd::std_specs::hash::group_hash_axioms;

        if handle == NULL_HANDLE {
            assert(self@ =~= old(self)@.remove(handle));
            return None;
        }
        let released = self.records.remove(&handle);
        assert(self@ =~= old(self)@.remove(handle));
        released
    }
}

} // verus!
