//! The client handle, the two slots it arbitrates, and the reference it
//! lends out.
//!
//! Nothing here waits for a lock or talks to the remote process. Where the
//! shared slot's lock has to be waited for, the handle says so and the caller
//! waits; what is done under the lock is decided here, on the guard.

use vstd::prelude::*;
use neovim_lib::{CallError, Neovim, Value};
use std::sync::{Arc, Mutex, MutexGuard};
use crate::lock::{
    cell_made_with, guard_cell, guard_content, guard_slot, guard_slot_mut, new_cell, share_cell,
};
use crate::mode::{allows_calls, reports_non_blocking};
use crate::slot::{move_session, promotion_of, store_session, try_acquire};
use crate::state::NeovimClientState;

verus! {

/// Exclusive access to the session for a bounded scope.
///
/// It is tagged by where the session was found. A reference out of the
/// exclusive slot holds nothing but the borrow. A reference out of the shared
/// slot holds the lock, and gives it back when it is dropped.
pub enum NeovimRef<'a> {
    SingleThreaded(&'a mut Neovim),
    MultiThreaded(MutexGuard<'a, Option<Neovim>>),
}

impl<'a> NeovimRef<'a> {
    /// A reference is well formed when there is a session behind it: a guard
    /// over an empty slot is no reference.
    pub open spec fn wf(self) -> bool {
        self matches NeovimRef::MultiThreaded(guard) ==> guard_content(guard) is Some
    }

    /// The session behind a well-formed reference.
    pub open spec fn session(self) -> Neovim
        recommends
            self.wf(),
    {
        match self {
            NeovimRef::SingleThreaded(nvim) => *nvim,
            NeovimRef::MultiThreaded(guard) => guard_content(guard).unwrap(),
        }
    }

    /// Whether the reference came out of the exclusive slot.
    pub open spec fn is_single_threaded(self) -> bool {
        self is SingleThreaded
    }

    /// The lock that the reference holds. On the exclusive path it holds
    /// none.
    pub open spec fn lock(self) -> Option<Mutex<Option<Neovim>>> {
        match self {
            NeovimRef::SingleThreaded(_) => None,
            NeovimRef::MultiThreaded(guard) => Some(guard_cell(guard)),
        }
    }

    /// What a held lock lends out: a reference that keeps the lock, over an
    /// occupied slot, and nothing over an empty one.
    pub open spec fn lent(guard: MutexGuard<'a, Option<Neovim>>) -> Option<Self> {
        if guard_content(guard) is Some {
            Some(NeovimRef::MultiThreaded(guard))
        } else {
            None
        }
    }

    fn from_nvim(nvim: &'a mut Neovim) -> (reference: Self)
        ensures
            reference matches NeovimRef::SingleThreaded(held) && *held == *old(nvim)
                && *final(held) == *final(nvim),
    {
        NeovimRef::SingleThreaded(nvim)
    }

    /// Turns a held lock into a reference where the slot behind it is
    /// occupied. Over an empty slot the lock is given back and there is no
    /// reference.
    pub fn from_guard(guard: MutexGuard<'a, Option<Neovim>>) -> (reference: Option<Self>)
        ensures
            reference == Self::lent(guard),
    {
        if guard_slot(&guard).is_some() {
            Some(NeovimRef::MultiThreaded(guard))
        } else {
            None
        }
    }

    fn try_nvim_async(nvim_async: &'a NeovimClientAsync) -> (reference: Option<NeovimRef<'a>>)
        ensures
            reference matches Some(r) ==> r.wf() && !r.is_single_threaded() && r.lock() == Some(
                nvim_async.cell(),
            ),
    {
        match try_acquire(&nvim_async.nvim) {
            Some(guard) => NeovimRef::from_guard(guard),
            None => None,
        }
    }

    /// Whether there is a session behind the reference.
    pub fn holds_session(&self) -> (held: bool)
        ensures
            held == self.wf(),
    {
        match self {
            NeovimRef::SingleThreaded(_) => true,
            NeovimRef::MultiThreaded(guard) => guard_slot(guard).is_some(),
        }
    }

    /// The session, to read.
    pub fn deref(&self) -> (nvim: &Neovim)
        requires
            self.wf(),
        ensures
            *nvim == self.session(),
    {
        match self {
            NeovimRef::SingleThreaded(nvim) => &**nvim,
            NeovimRef::MultiThreaded(guard) => guard_slot(guard).as_ref().unwrap(),
        }
    }

    /// The session, to issue calls on. What the caller leaves behind is what
    /// the reference holds afterwards, on the same path as before.
    pub fn deref_mut(&mut self) -> (nvim: &mut Neovim)
        requires
            old(self).wf(),
        ensures
            *nvim == old(self).session(),
            final(self).session() == *final(nvim),
            final(self).wf(),
            final(self).is_single_threaded() == old(self).is_single_threaded(),
            final(self).lock() == old(self).lock(),
    {
        match self {
            NeovimRef::SingleThreaded(nvim) => &mut **nvim,
            NeovimRef::MultiThreaded(guard) => guard_slot_mut(guard).as_mut().unwrap(),
        }
    }

    /// Keeps the reference where the outcome of a mode query says that the
    /// remote process takes calls, and drops it otherwise, lock included.
    ///
    /// The query is the caller's to make, on the session behind the
    /// reference. A failed query, an answer without the flag and a flag that
    /// is no boolean drop the reference too.
    pub fn retain_unless_blocked(
        self,
        mode: &Result<Vec<(Value, Value)>, CallError>,
    ) -> (reference: Option<Self>)
        ensures
            reference == (if reports_non_blocking(*mode) {
                Some(self)
            } else {
                None
            }),
    {
        if allows_calls(mode) {
            Some(self)
        } else {
            None
        }
    }
}

/// The shared slot: zero or one session behind a lock, reachable from
/// several threads. Its clones refer to the same slot.
pub struct NeovimClientAsync {
    nvim: Arc<Mutex<Option<Neovim>>>,
}

impl NeovimClientAsync {
    /// The lock of the slot. Clones of a handle have the same one.
    pub closed spec fn cell(&self) -> Mutex<Option<Neovim>> {
        *self.nvim
    }

    /// Whether the slot was created empty.
    pub open spec fn starts_empty(&self) -> bool {
        cell_made_with(self.cell()) is None
    }

    fn new() -> (slot: Self)
        ensures
            slot.starts_empty(),
    {
        NeovimClientAsync { nvim: Arc::new(new_cell(None)) }
    }

    /// The lock of the slot, for a caller that waits for it. What is done
    /// under the lock is `NeovimRef::from_guard`'s to decide, or one of the
    /// functions that take a guard.
    pub fn mutex(&self) -> (cell: &Mutex<Option<Neovim>>)
        ensures
            *cell == self.cell(),
    {
        &self.nvim
    }

    /// Lends the session out without waiting: there is no reference where
    /// another holder has the lock, nor over an empty slot.
    ///
    /// Whether the lock is free depends on the other holders: a reference
    /// that comes back holds this slot's lock and has a session behind it.
    pub fn try_borrow(&self) -> (reference: Option<NeovimRef<'_>>)
        ensures
            reference matches Some(r) ==> r.wf() && !r.is_single_threaded() && r.lock() == Some(
                self.cell(),
            ),
    {
        NeovimRef::try_nvim_async(self)
    }
}

impl Clone for NeovimClientAsync {
    /// One more handle on the same slot.
    fn clone(&self) -> (shared: Self)
        ensures
            shared == *self,
    {
        NeovimClientAsync { nvim: share_cell(&self.nvim) }
    }
}

/// What a borrow that may wait comes to: a reference that is there already,
/// or the shared slot whose lock the caller has to wait for.
pub enum NeovimAccess<'a> {
    Direct(NeovimRef<'a>),
    Shared(&'a NeovimClientAsync),
}

/// What a client handle is, to its owner: the lifecycle flag, what the
/// exclusive slot holds, and which shared slot it publishes into.
///
/// What the shared slot holds is no part of it: that is known only to the
/// holder of its lock, for as long as the lock is held.
pub struct ClientView {
    pub state: NeovimClientState,
    pub exclusive: Option<Neovim>,
    pub shared: NeovimClientAsync,
}

impl ClientView {
    /// The handle with `state` for its lifecycle flag.
    pub open spec fn with_state(self, state: NeovimClientState) -> ClientView {
        ClientView { state: state, exclusive: self.exclusive, shared: self.shared }
    }

    /// The handle with an empty exclusive slot.
    pub open spec fn cleared(self) -> ClientView {
        ClientView { state: self.state, exclusive: None, shared: self.shared }
    }

    /// The handle with `session` in its exclusive slot.
    pub open spec fn promoted(self, session: Neovim) -> ClientView {
        ClientView { state: self.state, exclusive: Some(session), shared: self.shared }
    }

    /// Whether a borrow takes the exclusive path, on which no lock is
    /// touched.
    pub open spec fn borrows_exclusive(self) -> bool {
        self.exclusive is Some
    }

    /// Whether initialization has succeeded.
    pub open spec fn is_initialized(self) -> bool {
        self.state == NeovimClientState::Initialized
    }

    /// Whether initialization has not begun.
    pub open spec fn is_uninitialized(self) -> bool {
        self.state == NeovimClientState::Uninitialized
    }

    /// Whether initialization is under way.
    pub open spec fn is_initializing(self) -> bool {
        self.state == NeovimClientState::InitInProgress
    }
}

/// The handle that owns the one session to the editor process, for the
/// lifetime of the program.
pub struct NeovimClient {
    state: NeovimClientState,
    nvim: Option<Neovim>,
    nvim_async: NeovimClientAsync,
}

impl View for NeovimClient {
    type V = ClientView;

    closed spec fn view(&self) -> ClientView {
        ClientView { state: self.state, exclusive: self.nvim, shared: self.nvim_async }
    }
}

impl NeovimClient {
    /// A handle that has not started: both slots are empty.
    pub fn new() -> (client: Self)
        ensures
            client@.state == NeovimClientState::Uninitialized,
            client@.exclusive is None,
            client@.shared.starts_empty(),
    {
        NeovimClient {
            state: NeovimClientState::Uninitialized,
            nvim: None,
            nvim_async: NeovimClientAsync::new(),
        }
    }

    /// One more handle on the shared slot of this client.
    pub fn shared(&self) -> (shared: NeovimClientAsync)
        ensures
            shared == self@.shared,
    {
        self.nvim_async.clone()
    }

    /// Drops the session. An occupied exclusive slot is emptied, and the
    /// shared slot is left alone. Over an empty exclusive slot the handle
    /// stays as it is and the shared slot comes back: it is the one to empty,
    /// with `take_session` under its lock, which the caller has to wait for.
    #[must_use]
    pub fn clear(&mut self) -> (rest: Option<&NeovimClientAsync>)
        ensures
            final(self)@ == old(self)@.cleared(),
            match rest {
                Some(slot) => old(self)@.exclusive is None && *slot == old(self)@.shared,
                None => old(self)@.exclusive is Some,
            },
    {
        if self.nvim.is_some() {
            self.nvim = None;
            None
        } else {
            Some(&self.nvim_async)
        }
    }

    /// Promotes the session: takes it out of the shared slot behind `guard`
    /// and installs it into the exclusive slot, in place of what was there.
    ///
    /// The caller has waited for the lock of this client's shared slot and
    /// found the slot occupied. An empty slot is a broken invariant of the
    /// caller, who has to stop there and not call.
    pub fn async_to_sync(&mut self, guard: &mut MutexGuard<Option<Neovim>>)
        requires
            guard_content(*old(guard)) is Some,
        ensures
            final(self)@ == old(self)@.promoted(guard_content(*old(guard)).unwrap()),
            guard_content(*final(guard)) is None,
            guard_cell(*final(guard)) == guard_cell(*old(guard)),
    {
        let _ = move_session(guard, &mut self.nvim);
    }

    /// Publishes a fresh session into the shared slot behind `guard`, in
    /// place of what was there, and returns one more handle on this client's
    /// shared slot.
    ///
    /// The caller has waited for the lock of that slot.
    pub fn set_nvim_async(&self, guard: &mut MutexGuard<Option<Neovim>>, nvim: Neovim) -> (shared:
        NeovimClientAsync)
        ensures
            shared == self@.shared,
            guard_content(*final(guard)) == Some(nvim),
            guard_cell(*final(guard)) == guard_cell(*old(guard)),
    {
        store_session(guard, nvim);
        self.nvim_async.clone()
    }

    /// Records that initialization has succeeded. The slots are left alone.
    pub fn set_initialized(&mut self)
        ensures
            final(self)@ == old(self)@.with_state(NeovimClientState::Initialized),
    {
        self.state = NeovimClientState::Initialized;
    }

    /// Records that initialization has failed. The slots are left alone.
    pub fn set_error(&mut self)
        ensures
            final(self)@ == old(self)@.with_state(NeovimClientState::Error),
    {
        self.state = NeovimClientState::Error;
    }

    /// Records that initialization is under way. The slots are left alone.
    pub fn set_in_progress(&mut self)
        ensures
            final(self)@ == old(self)@.with_state(NeovimClientState::InitInProgress),
    {
        self.state = NeovimClientState::InitInProgress;
    }

    /// Whether initialization has succeeded.
    pub fn is_initialized(&self) -> (yes: bool)
        ensures
            yes == self@.is_initialized(),
    {
        self.state == NeovimClientState::Initialized
    }

    /// Whether initialization has not begun.
    pub fn is_uninitialized(&self) -> (yes: bool)
        ensures
            yes == self@.is_uninitialized(),
    {
        self.state == NeovimClientState::Uninitialized
    }

    /// Whether initialization is under way.
    pub fn is_initializing(&self) -> (yes: bool)
        ensures
            yes == self@.is_initializing(),
    {
        self.state == NeovimClientState::InitInProgress
    }

    /// Lends the session out without waiting.
    ///
    /// With an occupied exclusive slot the reference goes straight to it and
    /// no lock is touched. Otherwise the shared slot is tried: there is no
    /// reference where it is empty or its lock is held elsewhere.
    pub fn try_nvim(&mut self) -> (reference: Option<NeovimRef<'_>>)
        ensures
            final(self)@.state == old(self)@.state,
            final(self)@.shared == old(self)@.shared,
            match old(self)@.exclusive {
                Some(session) => reference matches Some(NeovimRef::SingleThreaded(nvim))
                    && *nvim == session && final(self)@.exclusive == Some(*final(nvim)),
                None => final(self)@.exclusive is None && (reference matches Some(r) ==> r.wf()
                    && !r.is_single_threaded() && r.lock() == Some(old(self)@.shared.cell())),
            },
    {
        if self.nvim.is_some() {
            Some(NeovimRef::from_nvim(self.nvim.as_mut().unwrap()))
        } else {
            self.nvim_async.try_borrow()
        }
    }

    /// Lends the session out, for a caller that is ready to wait.
    ///
    /// With an occupied exclusive slot the reference goes straight to it and
    /// no lock is touched. Otherwise the shared slot comes back: the caller
    /// waits for its lock and hands the guard to `NeovimRef::from_guard`.
    pub fn nvim(&mut self) -> (access: NeovimAccess<'_>)
        ensures
            final(self)@.state == old(self)@.state,
            final(self)@.shared == old(self)@.shared,
            match old(self)@.exclusive {
                Some(session) => access matches NeovimAccess::Direct(
                    NeovimRef::SingleThreaded(nvim),
                ) && *nvim == session && final(self)@.exclusive == Some(*final(nvim)),
                None => final(self)@.exclusive is None && (access matches NeovimAccess::Shared(
                    slot,
                ) && *slot == old(self)@.shared),
            },
    {
        if self.nvim.is_some() {
            NeovimAccess::Direct(NeovimRef::from_nvim(self.nvim.as_mut().unwrap()))
        } else {
            NeovimAccess::Shared(&self.nvim_async)
        }
    }
}

/// Once a session is promoted, every borrow takes the exclusive path, on
/// which no lock is touched, and lends out that very session.
pub proof fn lemma_promoted_borrows_exclusive(client: ClientView, session: Neovim)
    ensures
        client.promoted(session).borrows_exclusive(),
        client.promoted(session).exclusive == Some(session),
        client.promoted(session).state == client.state,
        client.promoted(session).shared == client.shared,
{
}

/// A session that is stored in the shared slot and promoted under the same
/// lock leaves that slot empty and is the one that every later borrow lends
/// out, on the exclusive path.
pub proof fn lemma_install_promote_borrow(client: ClientView, session: Neovim)
    ensures
        promotion_of(Some(session), client.exclusive).moved,
        promotion_of(Some(session), client.exclusive).shared is None,
        promotion_of(Some(session), client.exclusive).exclusive == client.promoted(
            session,
        ).exclusive,
        client.promoted(session).borrows_exclusive(),
{
}

/// Clearing twice is clearing once, and clearing a handle whose exclusive
/// slot is empty leaves the handle as it was.
pub proof fn lemma_clear_idempotent(client: ClientView)
    ensures
        client.cleared().cleared() == client.cleared(),
        client.cleared().exclusive is None,
        !client.cleared().borrows_exclusive(),
        client.exclusive is None ==> client.cleared() == client,
{
}

/// A handle in the error state is neither initialized nor uninitialized, nor
/// still initializing.
pub proof fn lemma_error_is_final(client: ClientView)
    ensures
        !client.with_state(NeovimClientState::Error).is_initialized(),
        !client.with_state(NeovimClientState::Error).is_uninitialized(),
        !client.with_state(NeovimClientState::Error).is_initializing(),
{
}

/// No setter takes a handle back to the uninitialized state.
pub proof fn lemma_setters_never_uninitialize(client: ClientView)
    ensures
        !client.with_state(NeovimClientState::InitInProgress).is_uninitialized(),
        !client.with_state(NeovimClientState::Initialized).is_uninitialized(),
        !client.with_state(NeovimClientState::Error).is_uninitialized(),
{
}

/// The three predicates on the lifecycle flag exclude one another.
pub proof fn lemma_state_predicates_exclusive(client: ClientView)
    ensures
        !(client.is_initialized() && client.is_uninitialized()),
        !(client.is_initialized() && client.is_initializing()),
        !(client.is_uninitialized() && client.is_initializing()),
{
}

} // verus!
