//! Sharing one object between two handles that take turns with it.
//!
//! The object lives in a slot behind a lock. A handle that wants the object
//! takes it out of the slot with a try-lock that never waits; while it is
//! out, the other handle finds the slot empty and reports that it is busy.
//! The handle puts the object back as soon as its one operation is done.

use std::sync::{Arc, Mutex};
use vstd::prelude::*;

verus! {

/// The lock of std, carried as an opaque value.
#[verifier::external_type_specification]
#[verifier::external_body]
#[verifier::reject_recursive_types(T)]
pub struct ExMutex<T: ?Sized>(Mutex<T>);

/// Relies on `std::sync::Mutex::new`: a lock around `v`.
#[verifier::external_body]
fn new_slot<T>(v: Option<T>) -> Mutex<Option<T>> {
    Mutex::new(v)
}

/// Relies on `Arc::clone`: the clone points to the same allocation, so it
/// holds the same value.
#[verifier::external_body]
fn share<T>(a: &Arc<T>) -> (r: Arc<T>)
    ensures
        r == *a,
{
    Arc::clone(a)
}

/// Relies on `Arc::ptr_eq`: `true` only when both point to the same
/// allocation, which then holds one value.
#[verifier::external_body]
fn same_allocation<T>(a: &Arc<T>, b: &Arc<T>) -> (r: bool)
    ensures
        r ==> *a == *b,
{
    Arc::ptr_eq(a, b)
}

/// Relies on `Mutex::try_lock`, which never blocks: when the lock is free,
/// the object is taken out of the slot, which stays empty until it is put
/// back; when the lock is held, or the slot is empty, nothing is taken.
#[verifier::external_body]
fn try_take<T>(m: &Mutex<Option<T>>) -> Option<T> {
    match m.try_lock() {
        Ok(mut guard) => guard.take(),
        Err(_) => None,
    }
}

/// Relies on `Mutex::lock`: puts `v` into the slot. The lock is only ever
/// held for the instant of a take or a put, so this waits no longer.
#[verifier::external_body]
fn put_back<T>(m: &Mutex<Option<T>>, v: T) {
    match m.lock() {
        Ok(mut guard) => *guard = Some(v),
        Err(poisoned) => *poisoned.into_inner() = Some(v),
    }
}

/// One of two handles to a shared object.
#[verifier::reject_recursive_types(T)]
pub struct BiLock<T> {
    cell: Arc<Mutex<Option<T>>>,
}

impl<T> BiLock<T> {
    /// The two handles were made by one call to `new`.
    pub closed spec fn pairs_with(&self, other: &Self) -> bool {
        self.cell == other.cell
    }

    /// Puts `t` behind a lock and returns the two handles to it.
    pub fn new(t: T) -> (r: (Self, Self))
        ensures
            r.0.pairs_with(&r.1),
            r.1.pairs_with(&r.0),
    {
        let cell = Arc::new(new_slot(Some(t)));
        let other = share(&cell);
        (BiLock { cell }, BiLock { cell: other })
    }

    /// Takes the object, unless the other handle has it: never waits.
    pub(crate) fn try_acquire(&self) -> Option<T> {
        try_take(&self.cell)
    }

    /// Puts back the object taken by `try_acquire`.
    pub(crate) fn release(&self, t: T) {
        put_back(&self.cell, t)
    }

    /// Recovers the object from two handles made by one call to `new`;
    /// otherwise hands both handles back unchanged.
    pub fn reunite(self, other: Self) -> (r: Result<T, (Self, Self)>)
        ensures
            r is Ok ==> self.pairs_with(&other),
            r matches Err(pair) ==> pair.0 == self && pair.1 == other,
    {
        if same_allocation(&self.cell, &other.cell) {
            match try_take(&self.cell) {
                Some(t) => Ok(t),
                None => Err((self, other)),
            }
        } else {
            Err((self, other))
        }
    }
}

} // verus!
