//! Generation-checked keyed arena for live resource entries.
//!
//! One registry exists per resource type. A key is an opaque pair of slot
//! index and generation counter; the generation makes a key to a removed
//! entry dead forever, even when the slot index is later reused. The view
//! of a registry is the map from live keys to their entries; `spec_retired`
//! marks the keys whose entry was removed.

use vstd::prelude::*;

verus! {

/// An opaque, generation-checked handle identifying one live entry in a
/// specific registry. A key is meaningless across registries of different
/// resource types.
#[derive(Clone, Copy, Debug, PartialEq, Eq, Structural)]
pub struct Key {
    index: usize,
    generation: u64,
}

struct Slot<T> {
    generation: u64,
    value: Option<T>,
}

/// Type-segregated arena mapping generation-checked keys to live resource
/// entries. Keys are stable under unrelated insertions and removals.
pub struct Registry<T> {
    slots: Vec<Slot<T>>,
    free: Vec<usize>,
}

impl<T> View for Registry<T> {
    type V = Map<Key, T>;

    /// The map from live keys to the entries they identify.
    closed spec fn view(&self) -> Map<Key, T> {
        Map::new(
            |k: Key| self.spec_live(k),
            |k: Key| self.slots@[k.index as int].value.unwrap(),
        )
    }
}

impl<T> Registry<T> {
    /// A key is live when its slot holds an entry of its generation.
    pub closed spec fn spec_live(&self, k: Key) -> bool {
        &&& k.index < self.slots@.len()
        &&& self.slots@[k.index as int].generation == k.generation
        &&& self.slots@[k.index as int].value is Some
    }

    /// A key is retired when its slot has moved past its generation: the
    /// entry it identified was removed, and the key never resolves again.
    pub closed spec fn spec_retired(&self, k: Key) -> bool {
        &&& k.index < self.slots@.len()
        &&& k.generation < self.slots@[k.index as int].generation
    }

    /// Well-formedness: the free list names exactly free slots, without
    /// duplicates, and generation counters are never exhausted while a
    /// slot is still in use.
    pub closed spec fn wf(&self) -> bool {
        &&& forall|j: int|
            0 <= j < self.free@.len() ==> {
                &&& (#[trigger] self.free@[j]) < self.slots@.len()
                &&& self.slots@[self.free@[j] as int].value is None
                &&& self.slots@[self.free@[j] as int].generation < u64::MAX
            }
        &&& forall|a: int, b: int|
            0 <= a < b < self.free@.len() ==> self.free@[a] != self.free@[b]
        &&& forall|i: int|
            0 <= i < self.slots@.len() && (#[trigger] self.slots@[i].value) is Some
                ==> self.slots@[i].generation < u64::MAX
    }

    /// An empty registry.
    pub fn new() -> (r: Registry<T>)
        ensures
            r.wf(),
            r@ == Map::<Key, T>::empty(),
            forall|k: Key| !r.spec_retired(k),
    {
        let r = Registry { slots: Vec::new(), free: Vec::new() };
        proof {
            assert(r@ =~= Map::<Key, T>::empty());
        }
        r
    }

    /// Stores an entry and returns the fresh key that identifies it. The
    /// key is neither live nor retired beforehand, and every other key's
    /// standing is unchanged.
    pub fn insert(&mut self, value: T) -> (k: Key)
        requires
            old(self).wf(),
        ensures
            final(self).wf(),
            !old(self)@.dom().contains(k),
            !old(self).spec_retired(k),
            final(self)@ == old(self)@.insert(k, value),
            final(self)@.dom().contains(k),
            forall|k2: Key|
                final(self).spec_retired(k2) == old(self).spec_retired(k2),
    {
        let popped = self.free.pop();
        match popped {
            Some(i) => {
                let generation = self.slots[i].generation;
                self.slots[i] = Slot { generation, value: Some(value) };
                let k = Key { index: i, generation };
                proof {
                    assert forall|k2: Key| self.spec_live(k2) implies old(self).spec_live(k2)
                        || k2 == k by {}
                    assert(self@ =~= old(self)@.insert(k, value));
                }
                k
            },
            None => {
                let i = self.slots.len();
                self.slots.push(Slot { generation: 0, value: Some(value) });
                let k = Key { index: i, generation: 0 };
                proof {
                    assert forall|k2: Key| self.spec_live(k2) implies old(self).spec_live(k2)
                        || k2 == k by {}
                    assert(self@ =~= old(self)@.insert(k, value));
                }
                k
            },
        }
    }

    /// Looks an entry up; a stale or removed key yields nothing rather
    /// than failing.
    pub fn get(&self, k: Key) -> (r: Option<&T>)
        ensures
            match r {
                Some(v) => self@.dom().contains(k) && *v == self@[k],
                None => !self@.dom().contains(k),
            },
    {
        if k.index < self.slots.len() {
            let slot = &self.slots[k.index];
            if slot.generation == k.generation {
                match &slot.value {
                    Some(v) => Some(v),
                    None => None,
                }
            } else {
                None
            }
        } else {
            None
        }
    }

    /// Whether the key currently resolves to a live entry.
    pub fn contains(&self, k: Key) -> (r: bool)
        ensures
            r == self@.dom().contains(k),
    {
        self.get(k).is_some()
    }

    /// Removes the entry of a live key and returns it, so that the caller
    /// can still run native teardown with it. The key is retired: it will
    /// never resolve again, and no later insertion revives it.
    pub fn remove(&mut self, k: Key) -> (r: Option<T>)
        requires
            old(self).wf(),
        ensures
            final(self).wf(),
            match r {
                Some(v) => {
                    &&& old(self)@.dom().contains(k)
                    &&& v == old(self)@[k]
                    &&& final(self)@ == old(self)@.remove(k)
                    &&& forall|k2: Key|
                        final(self).spec_retired(k2) == (old(self).spec_retired(k2) || k2 == k)
                },
                None => {
                    &&& !old(self)@.dom().contains(k)
                    &&& final(self)@ == old(self)@
                    &&& forall|k2: Key|
                        final(self).spec_retired(k2) == old(self).spec_retired(k2)
                },
            },
    {
        if k.index < self.slots.len() && self.slots[k.index].generation == k.generation
            && self.slots[k.index].value.is_some() {
            let generation = k.generation;
            let slot_mut = &mut self.slots[k.index];
            let taken = slot_mut.value.take();
            slot_mut.generation = generation + 1;
            if generation + 1 < u64::MAX {
                self.free.push(k.index);
            }
            proof {
                assert forall|k2: Key| self.spec_live(k2) implies old(self).spec_live(k2) && k2
                    != k by {}
                assert(self@ =~= old(self)@.remove(k));
            }
            taken
        } else {
            None
        }
    }
}

/// A retired key never resolves: whatever later insertions or removals the
/// registry has seen, `get` on a key whose entry was removed yields
/// nothing, even when the slot index has been reused.
pub proof fn lemma_retired_key_never_resolves<T>(r: &Registry<T>, k: Key)
    requires
        r.spec_retired(k),
    ensures
        !r@.dom().contains(k),
{
}

} // verus!
