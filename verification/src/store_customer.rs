//! Record store, consumer side: an attached, read-only view of a store
//! region with a lazily built key-to-slot index.
//!
//! `get` reads the committed-record count first; if the key is not yet in
//! the consumer's private index, it scans only the slots written since its
//! last scan position, indexing each by its key, before looking the key up.
//! This catch-up-then-lookup design avoids rescanning the whole log on every
//! call while tolerating the owner appending between calls. A miss after a
//! full catch-up fails with `KeyNotFound`, which a caller may treat as
//! retryable — polling until the key appears.

use vstd::prelude::*;

use vstd::layout::size_of;

use core::marker::PhantomData;

use crate::shm::{spec_capacity, MutableShmMap, ShmMap};
use crate::store_owner::{distinct_keys, find_index_slot, has_index_key, has_key, lemma_lookup_at,
    lookup, slot_of};
use crate::{Key, Record, ShmDefinition, ShmError};

verus! {

/// Consumer (attached) end of a record store.
pub struct ShmStore<K, R> {
    /// The attachment to the shared region, recording name and size.
    pub map: ShmMap,
    /// The first slot this consumer has not yet indexed.
    pub next_read: usize,
    /// The consumer's private key-to-slot index over the slots it has
    /// scanned.
    pub index: Vec<(K, usize)>,
    pub record_type: PhantomData<R>,
}

impl<K: Key, R: Record<K>> ShmStore<K, R> {
    /// Every index entry points below the consumer's scan position, at a
    /// slot whose record carries the entry's key.
    pub open spec fn index_sound(&self, shm: MutableShmMap<R>) -> bool {
        forall|j: int|
            0 <= j < self.index@.len() ==> {
                let e = #[trigger] self.index@[j];
                &&& e.1 < self.next_read
                &&& shm.slots@[e.1 as int].spec_key() == e.0
            }
    }

    /// Every slot below the scan position has its key in the index.
    pub open spec fn index_complete(&self, shm: MutableShmMap<R>) -> bool {
        forall|i: int|
            0 <= i < self.next_read ==> has_index_key(
                self.index@,
                (#[trigger] shm.slots@[i]).spec_key(),
            )
    }

    /// Ties the consumer to the region it attached to: same definition, a
    /// well-formed region within the capacity the owner fixed, distinct keys
    /// across the committed records, and a scan position and index that
    /// never run ahead of the committed count.
    pub open spec fn wf(&self, shm: MutableShmMap<R>) -> bool {
        &&& shm.wf()
        &&& shm.within_capacity(size_of::<R>() as int)
        &&& spec_capacity(shm.definition.size as int, size_of::<R>() as int) <= usize::MAX
        &&& crate::same_definition(self.map.definition, shm.definition)
        &&& distinct_keys(shm.slots@)
        &&& self.next_read <= shm.counter
        &&& self.index_sound(shm)
        &&& self.index_complete(shm)
    }

    /// Attaches to the named store region; the index starts empty and the
    /// scan position at the first slot.
    pub fn open(definition: ShmDefinition) -> (r: ShmStore<K, R>)
        ensures
            r.map.definition == definition,
            r.next_read == 0,
            r.index@ == Seq::<(K, usize)>::empty(),
    {
        ShmStore {
            map: ShmMap::open(definition),
            next_read: 0,
            index: Vec::new(),
            record_type: PhantomData,
        }
    }

    /// Returns the current value at `key`: the record in the unique
    /// committed slot carrying that key, or `KeyNotFound` when no committed
    /// slot carries it — including immediately after opening against an
    /// empty store. If the key is not yet indexed, all slots committed since
    /// the last scan are indexed first, so a record the owner has published
    /// is always found.
    pub fn get(&mut self, shm: &MutableShmMap<R>, key: &K) -> (r: Result<R, ShmError>)
        requires
            old(self).wf(*shm),
        ensures
            final(self).wf(*shm),
            final(self).map == old(self).map,
            r == (match lookup(shm.slots@, *key) {
                Some(rec) => Ok::<R, ShmError>(rec),
                None => Err::<R, ShmError>(ShmError::KeyNotFound),
            }),
    {
        let records_count: usize = shm.counter() as usize;
        if find_index_slot(&self.index, key).is_none() {
            while self.next_read < records_count
                invariant
                    old(self).wf(*shm),
                    self.map == old(self).map,
                    self.next_read <= records_count,
                    records_count == shm.counter,
                    self.index_sound(*shm),
                    self.index_complete(*shm),
                decreases records_count - self.next_read,
            {
                let ghost prior = self.index@;
                let rec = shm.read_slot(self.next_read);
                self.index.push((rec.key(), self.next_read));
                self.next_read = self.next_read + 1;
                proof {
                    assert forall|i: int| 0 <= i < self.next_read implies has_index_key(
                        self.index@,
                        (#[trigger] shm.slots@[i]).spec_key(),
                    ) by {
                        if i + 1 < self.next_read {
                            assert(has_index_key(prior, shm.slots@[i].spec_key()));
                            let j = choose|j: int|
                                0 <= j < prior.len() && (#[trigger] prior[j]).0
                                    == shm.slots@[i].spec_key();
                            assert(self.index@[j] == prior[j]);
                        } else {
                            assert(self.index@[self.index@.len() - 1].0
                                == shm.slots@[i].spec_key());
                        }
                    }
                }
            }
        }
        match find_index_slot(&self.index, key) {
            Some(s) => {
                proof {
                    let j = choose|j: int|
                        0 <= j < self.index@.len() && (#[trigger] self.index@[j]) == (*key, s);
                    assert(self.index@[j].1 < self.next_read);
                    assert(shm.slots@[s as int].spec_key() == *key);
                    lemma_lookup_at(shm.slots@, *key, s as int);
                }
                Ok(shm.read_slot(s))
            },
            None => {
                proof {
                    assert(self.next_read == records_count);
                    assert(!has_key(shm.slots@, *key)) by {
                        if has_key(shm.slots@, *key) {
                            let i = slot_of(shm.slots@, *key);
                            assert(0 <= i < shm.slots@.len());
                            assert(shm.slots@[i].spec_key() == *key);
                            assert(has_index_key(self.index@, *key));
                            let j = choose|j: int|
                                0 <= j < self.index@.len() && (#[trigger] self.index@[j]).0
                                    == *key;
                            assert(self.index@[j].0 != *key);
                        }
                    }
                }
                Err(ShmError::KeyNotFound)
            },
        }
    }
}

} // verus!
