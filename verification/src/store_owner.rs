//! Record store, owner side: a key-indexed structure over a region of
//! fixed-size records, supporting insert-or-update by key.
//!
//! The region holds the committed-record counter followed by the flat array
//! of records; one key maps to one logical current value at any time. A put
//! whose key is already present overwrites the record in place at its
//! original slot — last write wins, no growth and no counter movement. A put
//! with a fresh key appends to the next free slot and publishes it, failing
//! with `OutOfCapacity` once the fixed slot count is spent. The owner keeps
//! a private key-to-slot index so that updates find their slot without
//! rescanning.
//!
//! This module also defines the logical content of a store region —
//! [`lookup`] — and proves the laws the two sides rely on: appending under a
//! fresh key or overwriting a key's own slot changes exactly that key's
//! content and keeps all keys distinct.

use vstd::prelude::*;

use vstd::layout::size_of;

use core::marker::PhantomData;

use crate::shm::{region_capacity, spec_capacity, MutableShmMap};
use crate::{Key, Record, ShmDefinition, ShmError};

verus! {

/// Whether some committed slot holds a record with key `k`.
pub open spec fn has_key<K, R: Record<K>>(slots: Seq<R>, k: K) -> bool {
    exists|i: int| 0 <= i < slots.len() && (#[trigger] slots[i].spec_key()) == k
}

/// The slot holding key `k`, when one exists; with distinct keys it is the
/// unique such slot.
pub open spec fn slot_of<K, R: Record<K>>(slots: Seq<R>, k: K) -> int {
    choose|i: int| 0 <= i < slots.len() && (#[trigger] slots[i].spec_key()) == k
}

/// No two committed slots expose the same key: one key maps to one logical
/// current value. The owner's update-in-place discipline maintains this.
pub open spec fn distinct_keys<K, R: Record<K>>(slots: Seq<R>) -> bool {
    forall|i: int, j: int|
        0 <= i < j < slots.len() ==> (#[trigger] slots[i].spec_key()) != (
        #[trigger] slots[j].spec_key())
}

/// The logical content of a store region: the current value at key `k`, if
/// any.
pub open spec fn lookup<K, R: Record<K>>(slots: Seq<R>, k: K) -> Option<R> {
    if has_key(slots, k) {
        Some(slots[slot_of(slots, k)])
    } else {
        None
    }
}

/// With distinct keys, a slot that holds `k` is the slot `lookup` answers
/// from.
pub proof fn lemma_lookup_at<K, R: Record<K>>(slots: Seq<R>, k: K, i: int)
    requires
        distinct_keys(slots),
        0 <= i < slots.len(),
        slots[i].spec_key() == k,
    ensures
        has_key(slots, k),
        slot_of(slots, k) == i,
        lookup(slots, k) == Some(slots[i]),
{
    assert(has_key(slots, k));
    let j = slot_of(slots, k);
    assert(0 <= j < slots.len() && slots[j].spec_key() == k);
    if i < j {
        assert(slots[i].spec_key() != slots[j].spec_key());
    } else if j < i {
        assert(slots[j].spec_key() != slots[i].spec_key());
    }
}

/// Appending a record under a fresh key sets exactly that key's content and
/// keeps the keys distinct; every other key reads as before.
pub proof fn lemma_lookup_push<K, R: Record<K>>(slots: Seq<R>, r: R)
    requires
        distinct_keys(slots),
        !has_key(slots, r.spec_key()),
    ensures
        distinct_keys(slots.push(r)),
        lookup(slots.push(r), r.spec_key()) == Some(r),
        forall|k: K| k != r.spec_key() ==> lookup(slots.push(r), k) == lookup(slots, k),
{
    let post = slots.push(r);
    assert forall|i: int, j: int| 0 <= i < j < post.len() implies (#[trigger] post[i].spec_key())
        != (#[trigger] post[j].spec_key()) by {
        if j < slots.len() {
            assert(slots[i].spec_key() != slots[j].spec_key());
        } else {
            assert(post[j] == r);
            assert(slots[i].spec_key() == post[i].spec_key());
        }
    }
    lemma_lookup_at(post, r.spec_key(), slots.len() as int);
    assert forall|k: K| k != r.spec_key() implies lookup(post, k) == lookup(slots, k) by {
        if has_key(slots, k) {
            let i = slot_of(slots, k);
            assert(0 <= i < slots.len() && slots[i].spec_key() == k);
            lemma_lookup_at(slots, k, i);
            assert(post[i].spec_key() == k);
            lemma_lookup_at(post, k, i);
        } else {
            assert(!has_key(post, k)) by {
                if has_key(post, k) {
                    let i = slot_of(post, k);
                    assert(0 <= i < post.len() && post[i].spec_key() == k);
                    assert(i < slots.len());
                    assert(slots[i].spec_key() == k);
                }
            }
        }
    }
}

/// Overwriting the slot that already holds a key sets exactly that key's
/// content and keeps the keys distinct; every other key reads as before.
pub proof fn lemma_lookup_update<K, R: Record<K>>(slots: Seq<R>, i: int, r: R)
    requires
        distinct_keys(slots),
        0 <= i < slots.len(),
        slots[i].spec_key() == r.spec_key(),
    ensures
        distinct_keys(slots.update(i, r)),
        lookup(slots.update(i, r), r.spec_key()) == Some(r),
        forall|k: K| k != r.spec_key() ==> lookup(slots.update(i, r), k) == lookup(slots, k),
{
    let post = slots.update(i, r);
    assert forall|a: int, b: int| 0 <= a < b < post.len() implies (#[trigger] post[a].spec_key())
        != (#[trigger] post[b].spec_key()) by {
        assert(slots[a].spec_key() != slots[b].spec_key());
        if a == i {
            assert(post[a].spec_key() == slots[i].spec_key());
        }
        if b == i {
            assert(post[b].spec_key() == slots[i].spec_key());
        }
    }
    lemma_lookup_at(post, r.spec_key(), i);
    assert forall|k: K| k != r.spec_key() implies lookup(post, k) == lookup(slots, k) by {
        if has_key(slots, k) {
            let a = slot_of(slots, k);
            assert(0 <= a < slots.len() && slots[a].spec_key() == k);
            lemma_lookup_at(slots, k, a);
            assert(a != i);
            assert(post[a].spec_key() == k);
            lemma_lookup_at(post, k, a);
        } else {
            assert(!has_key(post, k)) by {
                if has_key(post, k) {
                    let a = slot_of(post, k);
                    assert(0 <= a < post.len() && post[a].spec_key() == k);
                    assert(a != i);
                    assert(slots[a].spec_key() == k);
                }
            }
        }
    }
}

/// A put of a record under a fresh key followed by a get of that key yields
/// that record; a second put under the same key followed by a get yields
/// only the second record — no residual first value is reachable by the
/// key. Stated over the region contents that `put` produces: the append at
/// the next free slot, then the overwrite in place at that same slot.
pub proof fn lemma_put_then_get<K, R: Record<K>>(slots: Seq<R>, r1: R, r2: R)
    requires
        distinct_keys(slots),
        !has_key(slots, r1.spec_key()),
        r2.spec_key() == r1.spec_key(),
    ensures
        lookup(slots.push(r1), r1.spec_key()) == Some(r1),
        slot_of(slots.push(r1), r2.spec_key()) == slots.len(),
        lookup(slots.push(r1).update(slots.len() as int, r2), r2.spec_key()) == Some(r2),
{
    lemma_lookup_push(slots, r1);
    lemma_lookup_at(slots.push(r1), r1.spec_key(), slots.len() as int);
    lemma_lookup_update(slots.push(r1), slots.len() as int, r2);
}

/// Whether some index entry carries key `k`.
pub open spec fn has_index_key<K>(entries: Seq<(K, usize)>, k: K) -> bool {
    exists|j: int| 0 <= j < entries.len() && (#[trigger] entries[j]).0 == k
}

/// Looks up `key` in a key-to-slot index, returning the slot of the first
/// entry carrying that key.
pub fn find_index_slot<K: Key>(index: &Vec<(K, usize)>, key: &K) -> (r: Option<usize>)
    ensures
        match r {
            Some(s) => exists|j: int|
                0 <= j < index@.len() && (#[trigger] index@[j]) == (*key, s),
            None => forall|j: int| 0 <= j < index@.len() ==> (#[trigger] index@[j]).0 != *key,
        },
{
    let mut j: usize = 0;
    while j < index.len()
        invariant
            j <= index@.len(),
            forall|t: int| 0 <= t < j ==> (#[trigger] index@[t]).0 != *key,
        decreases index@.len() - j,
    {
        let e = index[j];
        if e.0.key_eq(key) {
            return Some(e.1);
        }
        j = j + 1;
    }
    None
}

/// Owner (writer) end of a record store.
pub struct ShmStore<K, R> {
    /// Records that may still be appended before the region is full.
    pub available: usize,
    /// The owner's key-to-slot index over the committed records.
    pub index: Vec<(K, usize)>,
    pub record_type: PhantomData<R>,
}

impl<K: Key, R: Record<K>> ShmStore<K, R> {
    /// Every index entry points below the committed count, at a slot whose
    /// record carries the entry's key.
    pub open spec fn index_sound(&self, shm: MutableShmMap<R>) -> bool {
        forall|j: int|
            0 <= j < self.index@.len() ==> {
                let e = #[trigger] self.index@[j];
                &&& e.1 < shm.counter
                &&& shm.slots@[e.1 as int].spec_key() == e.0
            }
    }

    /// Every committed record's key appears in the index.
    pub open spec fn index_complete(&self, shm: MutableShmMap<R>) -> bool {
        forall|i: int|
            0 <= i < shm.slots@.len() ==> has_index_key(
                self.index@,
                (#[trigger] shm.slots@[i]).spec_key(),
            )
    }

    /// Ties the owner to its region: a well-formed region whose capacity was
    /// fixed at open time, distinct keys across the committed records, and
    /// an index that is sound and complete.
    pub open spec fn wf(&self, shm: MutableShmMap<R>) -> bool {
        &&& shm.wf()
        &&& self.available + shm.counter == spec_capacity(
            shm.definition.size as int,
            size_of::<R>() as int,
        )
        &&& spec_capacity(shm.definition.size as int, size_of::<R>() as int) <= usize::MAX
        &&& distinct_keys(shm.slots@)
        &&& self.index_sound(shm)
        &&& self.index_complete(shm)
    }

    /// Creates the backing region for a store and zeroes its header: no
    /// record is committed, and the capacity — computed once from the region
    /// size and the record size — is fully available.
    pub fn open(definition: ShmDefinition) -> (r: (ShmStore<K, R>, MutableShmMap<R>))
        ensures
            r.0.wf(r.1),
            r.1.definition == definition,
            r.1.counter == 0,
            r.1.slots@ == Seq::<R>::empty(),
            r.0.available == spec_capacity(definition.size as int, size_of::<R>() as int),
    {
        let size = definition.size;
        let m = MutableShmMap::create(definition);
        let elem = core::mem::size_of::<R>();
        let available = region_capacity(size, elem);
        (ShmStore { available, index: Vec::new(), record_type: PhantomData }, m)
    }

    /// Insert-or-update by key. If the record's key is already present, the
    /// record overwrites its original slot in place — last write wins, even
    /// when the store is full, and the committed count does not move.
    /// Otherwise, with capacity remaining, the record is appended to the
    /// next free slot and published; with none, the put fails with
    /// `OutOfCapacity` and nothing is written. After any successful put the
    /// store's content at the record's key is exactly this record, and no
    /// other key's content moves.
    pub fn put(&mut self, shm: &mut MutableShmMap<R>, record: R) -> (r: Result<(), ShmError>)
        requires
            old(self).wf(*old(shm)),
        ensures
            final(self).wf(*final(shm)),
            final(shm).definition == old(shm).definition,
            ({
                let k = record.spec_key();
                if has_key(old(shm).slots@, k) {
                    &&& r is Ok
                    &&& final(shm).slots@ == old(shm).slots@.update(
                        slot_of(old(shm).slots@, k),
                        record,
                    )
                    &&& final(shm).counter == old(shm).counter
                    &&& final(self).available == old(self).available
                } else if old(self).available > 0 {
                    &&& r is Ok
                    &&& final(shm).slots@ == old(shm).slots@.push(record)
                    &&& final(shm).counter == old(shm).counter + 1
                    &&& final(self).available == old(self).available - 1
                } else {
                    &&& r == Err::<(), ShmError>(ShmError::OutOfCapacity)
                    &&& *final(shm) == *old(shm)
                    &&& *final(self) == *old(self)
                }
            }),
            r is Ok ==> lookup(final(shm).slots@, record.spec_key()) == Some(record),
            r is Ok ==> forall|k2: K|
                k2 != record.spec_key() ==> lookup(final(shm).slots@, k2) == lookup(
                    old(shm).slots@,
                    k2,
                ),
    {
        let key = record.key();
        match find_index_slot(&self.index, &key) {
            Some(s) => {
                proof {
                    let j = choose|j: int|
                        0 <= j < self.index@.len() && (#[trigger] self.index@[j]) == (key, s);
                    assert(self.index@[j].1 < shm.counter);
                    assert(shm.slots@[s as int].spec_key() == key);
                    lemma_lookup_at(shm.slots@, key, s as int);
                }
                shm.overwrite(s, record);
                proof {
                    lemma_lookup_update(old(shm).slots@, s as int, record);
                    assert forall|i: int| 0 <= i < shm.slots@.len() implies has_index_key(
                        self.index@,
                        (#[trigger] shm.slots@[i]).spec_key(),
                    ) by {
                        if i == s {
                            assert(shm.slots@[i].spec_key() == old(shm).slots@[i].spec_key());
                        }
                        assert(has_index_key(self.index@, old(shm).slots@[i].spec_key()));
                    }
                }
                Ok(())
            },
            None => {
                proof {
                    assert(!has_key(old(shm).slots@, key)) by {
                        if has_key(old(shm).slots@, key) {
                            let i = slot_of(old(shm).slots@, key);
                            assert(0 <= i < old(shm).slots@.len());
                            assert(old(shm).slots@[i].spec_key() == key);
                            assert(has_index_key(self.index@, key));
                            let j = choose|j: int|
                                0 <= j < self.index@.len() && (#[trigger] self.index@[j]).0
                                    == key;
                            assert(self.index@[j].0 != key);
                        }
                    }
                }
                if self.available > 0 {
                    let s: usize = shm.counter() as usize;
                    shm.commit(record);
                    self.index.push((key, s));
                    self.available = self.available - 1;
                    proof {
                        lemma_lookup_push(old(shm).slots@, record);
                        assert(shm.slots@[s as int].spec_key() == key);
                        assert forall|i: int| 0 <= i < shm.slots@.len() implies has_index_key(
                            self.index@,
                            (#[trigger] shm.slots@[i]).spec_key(),
                        ) by {
                            if i < old(shm).slots@.len() {
                                assert(has_index_key(
                                    old(self).index@,
                                    old(shm).slots@[i].spec_key(),
                                ));
                                let j = choose|j: int|
                                    0 <= j < old(self).index@.len() && (#[trigger] old(
                                        self,
                                    ).index@[j]).0 == old(shm).slots@[i].spec_key();
                                assert(self.index@[j] == old(self).index@[j]);
                            } else {
                                assert(self.index@[self.index@.len() - 1] == (key, s));
                            }
                        }
                    }
                    Ok(())
                } else {
                    Err(ShmError::OutOfCapacity)
                }
            },
        }
    }
}

} // verus!
