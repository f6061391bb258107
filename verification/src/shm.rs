//! The region arena: a named, fixed-size block shared between one owner and
//! any number of attached readers.
//!
//! Every channel places a fixed-width counter of committed units at the start
//! of its region, immediately followed by a flat array of fixed-size
//! elements. This module models that shape directly: the counter and the
//! committed slots are the region's state, and all access goes through
//! bounds-checked accessors that enforce the publish rule — a reader never
//! observes a slot index at or beyond the counter it read.
//!
//! The owner role (`MutableShmMap`) holds the region's storage and is the
//! only writer; attached roles receive the region by shared reference and
//! hold only private cursors. Creating, mapping and unlinking the real named
//! OS object is unverifiable pointer work that lives with the embedding
//! program; the arena carries the definition so that owner and attachers can
//! be held to the same name and size.

use vstd::prelude::*;

use crate::ShmDefinition;

verus! {

/// Byte width of the committed-units counter that starts every region.
pub const HEADER_BYTES: usize = 8;

/// Capacity in elements of a region of `size` bytes: after the counter
/// header, as many whole elements as fit. Computed once at creation and
/// never changed; a channel that exhausts it fails rather than growing.
pub open spec fn spec_capacity(size: int, elem_size: int) -> int {
    if elem_size <= 0 {
        0
    } else if size < HEADER_BYTES {
        0
    } else {
        (size - HEADER_BYTES) / elem_size
    }
}

/// Executable form of [`spec_capacity`].
pub fn region_capacity(size: usize, elem_size: usize) -> (c: usize)
    ensures
        c == spec_capacity(size as int, elem_size as int),
{
    if elem_size == 0 {
        0
    } else if size < HEADER_BYTES {
        0
    } else {
        (size - HEADER_BYTES) / elem_size
    }
}

/// The capacity never exceeds the byte size of the region: one element takes
/// at least one byte, so a committed-unit counter that stays within the
/// capacity always fits in the machine's address arithmetic.
pub proof fn lemma_capacity_le_size(size: int, elem_size: int)
    requires
        0 <= size,
    ensures
        0 <= spec_capacity(size, elem_size) <= size,
        size >= HEADER_BYTES ==> spec_capacity(size, elem_size) <= size - HEADER_BYTES,
        size < HEADER_BYTES ==> spec_capacity(size, elem_size) == 0,
{
    if elem_size >= 1 && size >= HEADER_BYTES {
        assert(0 <= (size - HEADER_BYTES) / elem_size <= size - HEADER_BYTES) by (nonlinear_arith)
            requires
                elem_size >= 1,
                size >= HEADER_BYTES,
        ;
    }
}

/// Owner role of a region: creates the backing object and is its single
/// writer. The state is the committed-units counter followed by the flat
/// array of committed slots.
pub struct MutableShmMap<T> {
    pub definition: ShmDefinition,
    pub counter: u64,
    pub slots: Vec<T>,
}

impl<T> MutableShmMap<T> {
    /// The counter always equals the number of committed slots: an element is
    /// stored strictly before the counter advances past it, so the counter
    /// never promises a slot that is not there.
    pub open spec fn wf(&self) -> bool {
        self.counter == self.slots@.len()
    }

    /// The committed count never exceeds the element capacity of the region,
    /// for elements `elem_size` bytes wide. Every channel's owner maintains
    /// this, and attached readers rely on it.
    pub open spec fn within_capacity(&self, elem_size: int) -> bool {
        self.counter <= spec_capacity(self.definition.size as int, elem_size)
    }

    /// Creates the region: the backing object is allocated at exactly
    /// `definition.size` bytes and zeroed, so the counter starts at zero and
    /// no slot is committed.
    pub fn create(definition: ShmDefinition) -> (m: MutableShmMap<T>)
        ensures
            m.wf(),
            m.definition == definition,
            m.counter == 0,
            m.slots@ == Seq::<T>::empty(),
    {
        MutableShmMap { definition, counter: 0, slots: Vec::new() }
    }

    /// Base offset of the region's bytes. The arena model anchors every
    /// region at offset zero of its own address space; the header lies at
    /// this base and slot `i` of elements of width `w` begins at
    /// `HEADER_BYTES + i * w` past it.
    pub fn start_ptr(&self) -> (p: usize)
        ensures
            p == 0,
    {
        0
    }

    /// The committed-units counter, the sole publish signal of the region.
    /// It is monotonically non-decreasing for the lifetime of the owner.
    pub fn counter(&self) -> (c: u64)
        ensures
            c == self.counter,
    {
        self.counter
    }

    /// Appends one element and publishes it: the slot is written first, then
    /// the counter advances by exactly one.
    pub fn commit(&mut self, value: T)
        requires
            old(self).wf(),
            old(self).counter < u64::MAX,
        ensures
            final(self).wf(),
            final(self).definition == old(self).definition,
            final(self).slots@ == old(self).slots@.push(value),
            final(self).counter == old(self).counter + 1,
    {
        self.slots.push(value);
        self.counter = self.counter + 1;
    }

    /// Overwrites an already committed slot in place. The counter does not
    /// move: the slot count and the published prefix are unchanged.
    pub fn overwrite(&mut self, i: usize, value: T)
        requires
            old(self).wf(),
            i < old(self).counter,
        ensures
            final(self).wf(),
            final(self).definition == old(self).definition,
            final(self).counter == old(self).counter,
            final(self).slots@ == old(self).slots@.update(i as int, value),
    {
        self.slots[i] = value;
    }

    /// Owner teardown: unmapping is followed by removal of the backing named
    /// object, performed by the mapping layer. Consuming the value makes
    /// every pointer derived from this region unreachable.
    pub fn close(self) -> (r: Result<(), crate::ShmError>)
        ensures
            r is Ok,
    {
        Ok(())
    }
}

impl<T: Copy> MutableShmMap<T> {
    /// Reads a committed slot. The bound is the publish rule: only indices
    /// below the counter may ever be observed.
    pub fn read_slot(&self, i: usize) -> (v: T)
        requires
            self.wf(),
            i < self.counter,
        ensures
            v == self.slots@[i as int],
    {
        self.slots[i]
    }
}

/// Attached role of a region: binds to an existing named object without
/// owning its lifecycle. In the arena model the existing object is the
/// owner's `MutableShmMap` value, which attached handles receive by shared
/// reference at each call; this handle records the definition it was opened
/// with, and reads require it to match the region's — the out-of-band naming
/// and sizing agreement of the wire format.
pub struct ShmMap {
    pub definition: ShmDefinition,
}

impl ShmMap {
    /// Attaches to the named object described by `definition`.
    pub fn open(definition: ShmDefinition) -> (m: ShmMap)
        ensures
            m.definition == definition,
    {
        ShmMap { definition }
    }

    /// Base offset of the mapped bytes, as for the owner role: every region
    /// is anchored at offset zero of its own address space.
    pub fn start_ptr(&self) -> (p: usize)
        ensures
            p == 0,
    {
        0
    }

    /// Attached teardown: only unmaps; the backing named object persists for
    /// the owner and other attachers.
    pub fn close(self) -> (r: Result<(), crate::ShmError>)
        ensures
            r is Ok,
    {
        Ok(())
    }
}

} // verus!
