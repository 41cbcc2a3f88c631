//! What this library takes on trust from `std::sync`.
//!
//! Nothing here is proved. Each item names the function of std that it
//! stands for and says no more than std's documentation does.

use vstd::prelude::*;
use neovim_lib::Neovim;
use std::sync::{Arc, Mutex, MutexGuard, TryLockError, TryLockResult};

verus! {

/// `std::sync::Mutex`, opaque: what it protects is seen only through a guard.
#[verifier::external_type_specification]
#[verifier::external_body]
#[verifier::reject_recursive_types(T)]
pub struct ExMutex<T: ?Sized>(Mutex<T>);

/// `std::sync::MutexGuard`, opaque: the proof that its holder has the lock.
#[verifier::external_type_specification]
#[verifier::external_body]
#[verifier::reject_recursive_types(T)]
pub struct ExMutexGuard<'a, T: ?Sized + 'a>(MutexGuard<'a, T>);

/// `std::sync::TryLockError`, opaque: why a lock could not be had at once.
#[verifier::external_type_specification]
#[verifier::external_body]
#[verifier::reject_recursive_types(T)]
pub struct ExTryLockError<T>(TryLockError<T>);

/// What `cell` was created around. A lock is created once, so this never
/// changes; it says nothing of what the lock protects later.
pub uninterp spec fn cell_made_with(cell: Mutex<Option<Neovim>>) -> Option<Neovim>;

/// The lock that `guard` was acquired from. A guard belongs to one lock for
/// as long as it lives.
pub uninterp spec fn guard_cell(guard: MutexGuard<Option<Neovim>>) -> Mutex<Option<Neovim>>;

/// `Mutex::new`: a fresh lock, created around `content`.
#[verifier::external_body]
pub(crate) fn new_cell(content: Option<Neovim>) -> (cell: Mutex<Option<Neovim>>)
    ensures
        cell_made_with(cell) == content,
{
    Mutex::new(content)
}

/// `Mutex::try_lock`: asks for the lock of `cell` without waiting. A guard
/// that comes back is a guard of that lock. Whether one comes back depends on
/// the other threads, so nothing is claimed of that.
#[verifier::external_body]
pub(crate) fn try_lock_cell<'a>(cell: &'a Mutex<Option<Neovim>>) -> (result: TryLockResult<
    MutexGuard<'a, Option<Neovim>>,
>)
    ensures
        result matches Ok(guard) ==> guard_cell(guard) == *cell,
{
    cell.try_lock()
}

/// What the lock behind `guard` protects while `guard` is held: the session,
/// or nothing.
///
/// Only the holder of the guard can read or change it, so it is a function of
/// the guard. It is not a function of the `Mutex`: between two acquisitions
/// any other holder may have replaced it.
pub uninterp spec fn guard_content(guard: MutexGuard<Option<Neovim>>) -> Option<Neovim>;

/// `Deref::deref` of `MutexGuard`: a shared reference to what the lock
/// protects.
#[verifier::external_body]
pub(crate) fn guard_slot<'a, 'b>(guard: &'a MutexGuard<'b, Option<Neovim>>) -> (slot: &'a Option<
    Neovim,
>)
    ensures
        *slot == guard_content(*guard),
{
    &**guard
}

/// `DerefMut::deref_mut` of `MutexGuard`: an exclusive reference to what the
/// lock protects. What is written through it is what the guard protects
/// afterwards; the guard stays a guard of the same lock.
#[verifier::external_body]
pub(crate) fn guard_slot_mut<'a, 'b>(guard: &'a mut MutexGuard<'b, Option<Neovim>>) -> (slot: &'a mut Option<
    Neovim,
>)
    ensures
        *slot == guard_content(*old(guard)),
        guard_content(*final(guard)) == *final(slot),
        guard_cell(*final(guard)) == guard_cell(*old(guard)),
{
    &mut **guard
}

/// `Clone::clone` of `Arc`: one more pointer to the same lock.
#[verifier::external_body]
pub(crate) fn share_cell(cell: &Arc<Mutex<Option<Neovim>>>) -> (shared: Arc<Mutex<Option<Neovim>>>)
    ensures
        shared == *cell,
{
    cell.clone()
}

} // verus!
