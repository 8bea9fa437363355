//! A small map from byte strings to values, kept as a list of slots.
//!
//! The list stands for the [`Map`] that results from inserting its slots in
//! order, so a later slot would win over an earlier one with the same key.
//! Writing replaces the winning slot in place, so a key never takes a second
//! slot.

use vstd::prelude::*;
use vstd::slice::slice_to_vec;

verus! {

/// Whether two byte strings hold the same bytes.
pub fn bytes_equal(a: &[u8], b: &[u8]) -> (same: bool)
    ensures
        same == (a@ == b@),
{
    if a.len() != b.len() {
        return false;
    }
    let mut i: usize = 0;
    while i < a.len()
        invariant
            a@.len() == b@.len(),
            0 <= i <= a@.len(),
            forall|j: int| 0 <= j < i ==> a@[j] == b@[j],
        decreases a@.len() - i,
    {
        if a[i] != b[i] {
            return false;
        }
        i += 1;
    }
    assert(a@ =~= b@);
    true
}

/// A key with the value stored under it.
pub struct Slot<V> {
    pub key: Vec<u8>,
    pub value: V,
}

/// The map that results from inserting `slots` in order.
pub open spec fn map_of<V>(slots: Seq<Slot<V>>) -> Map<Seq<u8>, V>
    decreases slots.len(),
{
    if slots.len() == 0 {
        Map::empty()
    } else {
        map_of(slots.drop_last()).insert(slots.last().key@, slots.last().value)
    }
}

/// Whether slot `i` holds `key` and no later slot does.
pub open spec fn wins_at<V>(slots: Seq<Slot<V>>, key: Seq<u8>, i: int) -> bool {
    &&& 0 <= i < slots.len()
    &&& slots[i].key@ == key
    &&& forall|j: int| i < j < slots.len() ==> (#[trigger] slots[j]).key@ != key
}

/// A key that no slot holds is not in the map.
pub proof fn lemma_absent_key<V>(slots: Seq<Slot<V>>, key: Seq<u8>)
    requires
        forall|j: int| 0 <= j < slots.len() ==> (#[trigger] slots[j]).key@ != key,
    ensures
        !map_of(slots).contains_key(key),
    decreases slots.len(),
{
    if slots.len() > 0 {
        let rest = slots.drop_last();
        assert forall|j: int| 0 <= j < rest.len() implies (#[trigger] rest[j]).key@ != key by {
            assert(rest[j] == slots[j]);
        }
        lemma_absent_key(rest, key);
        assert(slots.last() == slots[slots.len() - 1]);
    }
}

/// The map gives a key the value of the last slot that holds it.
pub proof fn lemma_winning_slot<V>(slots: Seq<Slot<V>>, key: Seq<u8>, i: int)
    requires
        wins_at(slots, key, i),
    ensures
        map_of(slots).contains_key(key),
        map_of(slots)[key] == slots[i].value,
    decreases slots.len(),
{
    let rest = slots.drop_last();
    if i < slots.len() - 1 {
        assert(slots[slots.len() - 1].key@ != key);
        assert(rest[i] == slots[i]);
        assert forall|j: int| i < j < rest.len() implies (#[trigger] rest[j]).key@ != key by {
            assert(rest[j] == slots[j]);
        }
        lemma_winning_slot(rest, key, i);
    }
}

/// Replacing the winning slot of a key changes the map as an insertion does.
pub proof fn lemma_replace_winning_slot<V>(slots: Seq<Slot<V>>, key: Seq<u8>, i: int, slot: Slot<V>)
    requires
        wins_at(slots, key, i),
        slot.key@ == key,
    ensures
        map_of(slots.update(i, slot)) =~= map_of(slots).insert(key, slot.value),
    decreases slots.len(),
{
    let changed = slots.update(i, slot);
    let rest = slots.drop_last();
    if i == slots.len() - 1 {
        assert(changed.drop_last() =~= rest);
    } else {
        assert(slots[slots.len() - 1].key@ != key);
        assert(rest[i] == slots[i]);
        assert forall|j: int| i < j < rest.len() implies (#[trigger] rest[j]).key@ != key by {
            assert(rest[j] == slots[j]);
        }
        lemma_replace_winning_slot(rest, key, i, slot);
        assert(changed.drop_last() =~= rest.update(i, slot));
        assert(changed.last() == slots.last());
    }
}

/// A map from byte strings to values of type `V`.
pub struct Table<V> {
    slots: Vec<Slot<V>>,
}

impl<V> Table<V> {
    /// The map that this table stands for.
    pub closed spec fn entries(&self) -> Map<Seq<u8>, V> {
        map_of(self.slots@)
    }

    /// A table without entries.
    pub fn new() -> (table: Table<V>)
        ensures
            table.entries() == Map::<Seq<u8>, V>::empty(),
    {
        Table { slots: Vec::new() }
    }

    fn find(&self, key: &[u8]) -> (found: Option<usize>)
        ensures
            match found {
                Some(i) => wins_at(self.slots@, key@, i as int),
                None => forall|j: int|
                    0 <= j < self.slots@.len() ==> (#[trigger] self.slots@[j]).key@ != key@,
            },
    {
        let mut i: usize = self.slots.len();
        while i > 0
            invariant
                0 <= i <= self.slots@.len(),
                forall|j: int| i <= j < self.slots@.len() ==> (#[trigger] self.slots@[j]).key@ != key@,
            decreases i,
        {
            i -= 1;
            if bytes_equal(self.slots[i].key.as_slice(), key) {
                return Some(i);
            }
        }
        None
    }

    /// Whether a value is stored under `key`.
    pub fn contains(&self, key: &[u8]) -> (present: bool)
        ensures
            present == self.entries().contains_key(key@),
    {
        match self.find(key) {
            Some(i) => {
                proof {
                    lemma_winning_slot(self.slots@, key@, i as int);
                }
                true
            },
            None => {
                proof {
                    lemma_absent_key(self.slots@, key@);
                }
                false
            },
        }
    }

    /// The value stored under `key`, if any.
    pub fn get(&self, key: &[u8]) -> (value: Option<&V>)
        ensures
            match value {
                Some(v) => self.entries().contains_key(key@) && *v == self.entries()[key@],
                None => !self.entries().contains_key(key@),
            },
    {
        match self.find(key) {
            Some(i) => {
                proof {
                    lemma_winning_slot(self.slots@, key@, i as int);
                }
                Some(&self.slots[i].value)
            },
            None => {
                proof {
                    lemma_absent_key(self.slots@, key@);
                }
                None
            },
        }
    }

    /// Stores `value` under `key`, in place of what was there.
    pub fn set(&mut self, key: &[u8], value: V)
        ensures
            final(self).entries() == old(self).entries().insert(key@, value),
    {
        let slot = Slot { key: slice_to_vec(key), value };
        match self.find(key) {
            Some(i) => {
                proof {
                    lemma_replace_winning_slot(self.slots@, key@, i as int, slot);
                }
                self.slots[i] = slot;
            },
            None => {
                self.slots.push(slot);
                assert(self.slots@.drop_last() =~= old(self).slots@);
            },
        }
    }
}

} // verus!
