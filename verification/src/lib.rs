//! Cross-process communication primitives modeled over shared memory regions.
//!
//! A region is a named, fixed-size block of memory that one *owner* process
//! creates and any number of *attached* processes open. Every channel in this
//! crate lays the same shape over its region: a fixed-width counter of
//! committed units at the start, immediately followed by a flat array of
//! fixed-size elements. The counter is the only publish signal between the
//! single writer and its readers.
//!
//! This crate verifies the protocol logic: layout and capacity arithmetic,
//! commit counters, private read cursors, the store's key index, and the
//! wait/notify decision protocol. The region is modeled as an in-memory
//! arena with bounds-checked slot accessors; the process-level plumbing that
//! maps a real named object into an address space is ordinary OS work that
//! stays outside the verified library.

use vstd::prelude::*;

pub mod bench_records;
pub mod pthread;
pub mod reader;
pub mod shm;
pub mod shm_syncer;
pub mod store_customer;
pub mod store_owner;
pub mod stream_consumer;
pub mod stream_producer;
pub mod writer;

verus! {

/// Names and sizes a shared memory region. The same definition must be used
/// by the owner that creates the region and by every process that attaches
/// to it; the size given here is the total byte length of the backing object.
pub struct ShmDefinition {
    pub name: String,
    pub size: usize,
}

impl ShmDefinition {
    pub fn new(name: String, size: usize) -> (d: ShmDefinition)
        ensures
            d.name == name,
            d.size == size,
    {
        ShmDefinition { name, size }
    }
}

/// Two definitions describe the same backing object: equal names and equal
/// sizes. This is the out-of-band agreement between an owner and its
/// attachers — the primitive does not detect a mismatch, the caller owes it.
pub open spec fn same_definition(a: ShmDefinition, b: ShmDefinition) -> bool {
    a.name@ == b.name@ && a.size == b.size
}

/// Every failure a channel operation can report. The first two arise when a
/// named backing object is created or opened; `OutOfCapacity` is terminal for
/// the instance, while `KeyNotFound` and `SyncTimeout` invite the caller to
/// retry. `Os` carries an otherwise unmapped error number from an underlying
/// primitive.
#[derive(Clone, Copy, Debug, PartialEq, Eq, Structural)]
pub enum ShmError {
    /// `create` collided with an existing backing object of the same name.
    AlreadyExists,
    /// `open` named a backing object that does not exist.
    NotFound,
    /// An append was attempted on a channel whose fixed slot count is
    /// exhausted; nothing was written.
    OutOfCapacity,
    /// A store lookup missed after a full catch-up scan.
    KeyNotFound,
    /// A bounded wait elapsed without a notification.
    SyncTimeout,
    /// An error number propagated from an OS-level primitive.
    Os(i32),
}

/// A value usable as a store key: copyable, with a decidable equality that
/// agrees with mathematical equality of the values.
pub trait Key: Sized + Copy {
    fn key_eq(&self, other: &Self) -> (b: bool)
        ensures
            b == (self == other),
    ;
}

impl Key for i32 {
    fn key_eq(&self, other: &i32) -> (b: bool)
        ensures
            b == (self == other),
    {
        *self == *other
    }
}

impl Key for usize {
    fn key_eq(&self, other: &usize) -> (b: bool)
        ensures
            b == (self == other),
    {
        *self == *other
    }
}

/// A fixed-layout value stored in a record store, addressed by the key it
/// exposes. One key maps to one logical current value at any time.
pub trait Record<K>: Sized + Copy {
    spec fn spec_key(&self) -> K;

    fn key(&self) -> (k: K)
        ensures
            k == self.spec_key(),
    ;
}

/// A small record used by the demonstration drivers: the first component is
/// the key, the second an arbitrary payload.
#[derive(Clone, Copy, Debug, PartialEq, Eq)]
pub struct TestRecord {
    pub value: (i32, i32),
}

impl Record<i32> for TestRecord {
    open spec fn spec_key(&self) -> i32 {
        self.value.0
    }

    fn key(&self) -> (k: i32)
        ensures
            k == self.spec_key(),
    {
        self.value.0
    }
}

} // verus!
