//! The shared slot as its holder sees it: zero or one session behind a lock
//! that is held.
//!
//! Nothing here waits for a lock. A caller that has to wait does so itself
//! and hands the guard in.

use vstd::prelude::*;
use neovim_lib::Neovim;
use std::sync::{Mutex, MutexGuard};
use crate::lock::{guard_cell, guard_content, guard_slot, guard_slot_mut, try_lock_cell};

verus! {

/// Asks for the lock of `cell` without waiting. There is no guard where
/// another holder has the lock, nor where an earlier holder panicked.
pub(crate) fn try_acquire<'a>(cell: &'a Mutex<Option<Neovim>>) -> (guard: Option<
    MutexGuard<'a, Option<Neovim>>,
>)
    ensures
        guard matches Some(held) ==> guard_cell(held) == *cell,
{
    match try_lock_cell(cell) {
        Ok(guard) => Some(guard),
        Err(_) => None,
    }
}

/// Whether the slot behind `guard` holds a session.
pub fn is_occupied(guard: &MutexGuard<Option<Neovim>>) -> (occupied: bool)
    ensures
        occupied == guard_content(*guard) is Some,
{
    guard_slot(guard).is_some()
}

/// Puts `nvim` into the slot behind `guard`, in place of what was there.
/// The guard stays a guard of the same lock.
pub fn store_session(guard: &mut MutexGuard<Option<Neovim>>, nvim: Neovim)
    ensures
        guard_content(*final(guard)) == Some(nvim),
        guard_cell(*final(guard)) == guard_cell(*old(guard)),
{
    let slot = guard_slot_mut(guard);
    *slot = Some(nvim);
}

/// Removes what the slot behind `guard` holds and returns it. The slot is
/// empty afterwards, and the guard stays a guard of the same lock.
pub fn take_session(guard: &mut MutexGuard<Option<Neovim>>) -> (taken: Option<Neovim>)
    ensures
        taken == guard_content(*old(guard)),
        guard_content(*final(guard)) is None,
        guard_cell(*final(guard)) == guard_cell(*old(guard)),
{
    let slot = guard_slot_mut(guard);
    slot.take()
}

/// The two slots and the verdict after the critical section of a
/// promotion.
pub struct Promotion {
    pub shared: Option<Neovim>,
    pub exclusive: Option<Neovim>,
    pub moved: bool,
}

/// What a promotion makes of the two slots: a session in the shared slot
/// moves into the exclusive slot, in place of what was there; over an empty
/// shared slot nothing moves. Either way the shared slot is empty afterwards.
pub open spec fn promotion_of(shared: Option<Neovim>, exclusive: Option<Neovim>) -> Promotion {
    match shared {
        Some(session) => Promotion { shared: None, exclusive: Some(session), moved: true },
        None => Promotion { shared: None, exclusive: exclusive, moved: false },
    }
}

/// The critical section of a promotion: moves the session out of the shared
/// slot behind `guard` into `exclusive`, in place of what was there.
///
/// Over an empty shared slot nothing moves and the result is `false`.
pub fn move_session(guard: &mut MutexGuard<Option<Neovim>>, exclusive: &mut Option<Neovim>) -> (moved:
    bool)
    ensures
        (Promotion {
            shared: guard_content(*final(guard)),
            exclusive: *final(exclusive),
            moved: moved,
        }) == promotion_of(guard_content(*old(guard)), *old(exclusive)),
        guard_cell(*final(guard)) == guard_cell(*old(guard)),
{
    match take_session(guard) {
        Some(nvim) => {
            *exclusive = Some(nvim);
            true
        },
        None => false,
    }
}

/// A session that was just stored is the one that a promotion moves, whatever
/// the exclusive slot held.
pub proof fn lemma_stored_session_is_promoted(session: Neovim, exclusive: Option<Neovim>)
    ensures
        promotion_of(Some(session), exclusive).moved,
        promotion_of(Some(session), exclusive).exclusive == Some(session),
        promotion_of(Some(session), exclusive).shared is None,
{
}

/// A promotion moves a session and never copies it: afterwards the shared
/// slot is empty, and a second promotion moves nothing and leaves the
/// exclusive slot as the first one left it.
pub proof fn lemma_promotion_happens_once(shared: Option<Neovim>, exclusive: Option<Neovim>)
    ensures
        promotion_of(shared, exclusive).shared is None,
        promotion_of(shared, exclusive).moved == shared is Some,
        !promotion_of(shared, exclusive).moved ==> promotion_of(shared, exclusive).exclusive
            == exclusive,
        ({
            let first = promotion_of(shared, exclusive);
            let second = promotion_of(first.shared, first.exclusive);
            !second.moved && second.exclusive == first.exclusive && second.shared is None
        }),
{
}

} // verus!
