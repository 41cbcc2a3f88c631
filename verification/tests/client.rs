use neovim_lib::{CallError, Neovim, NeovimApi, Session, Value};
use nvim_client::client::{NeovimAccess, NeovimClient, NeovimClientAsync, NeovimRef};
use nvim_client::slot::{is_occupied, take_session};
use std::sync::MutexGuard;

/// A session whose event loop was never started: every call on it fails at
/// once, without touching the connection.
fn idle_session() -> Neovim {
    Neovim::new(Session::new_parent().unwrap())
}

/// Waits for the lock of the shared slot, as a caller of the library does.
fn lock(slot: &NeovimClientAsync) -> MutexGuard<'_, Option<Neovim>> {
    slot.mutex().lock().unwrap()
}

fn install(client: &NeovimClient, nvim: Neovim) -> NeovimClientAsync {
    let slot = client.shared();
    let mut guard = lock(&slot);
    client.set_nvim_async(&mut guard, nvim)
}

/// Promotes where the shared slot is occupied, and says whether it was.
fn promote(client: &mut NeovimClient) -> bool {
    let slot = client.shared();
    let mut guard = lock(&slot);
    if !is_occupied(&guard) {
        return false;
    }
    client.async_to_sync(&mut guard);
    true
}

fn borrow(slot: &NeovimClientAsync) -> Option<NeovimRef<'_>> {
    NeovimRef::from_guard(lock(slot))
}

fn nvim(client: &mut NeovimClient) -> Option<NeovimRef<'_>> {
    match client.nvim() {
        NeovimAccess::Direct(reference) => Some(reference),
        NeovimAccess::Shared(slot) => borrow(slot),
    }
}

fn clear(client: &mut NeovimClient) {
    if let Some(slot) = client.clear() {
        let mut guard = lock(slot);
        let _ = take_session(&mut guard);
    }
}

fn not_blocking() -> Result<Vec<(Value, Value)>, CallError> {
    Ok(vec![
        (Value::from("mode"), Value::from("n")),
        (Value::from("blocking"), Value::from(false)),
    ])
}

fn blocking() -> Result<Vec<(Value, Value)>, CallError> {
    Ok(vec![
        (Value::from("mode"), Value::from("r")),
        (Value::from("blocking"), Value::from(true)),
    ])
}

#[test]
fn new_handle_is_uninitialized_and_empty() {
    let mut client = NeovimClient::new();
    assert!(client.is_uninitialized());
    assert!(!client.is_initializing());
    assert!(!client.is_initialized());
    assert!(client.try_nvim().is_none());
    assert!(nvim(&mut client).is_none());
}

#[test]
fn lifecycle_follows_the_setters() {
    let mut client = NeovimClient::new();
    client.set_in_progress();
    assert!(client.is_initializing());
    assert!(!client.is_uninitialized());
    assert!(!client.is_initialized());
    client.set_initialized();
    assert!(client.is_initialized());
    assert!(!client.is_initializing());
    assert!(!client.is_uninitialized());
}

#[test]
fn after_set_error_neither_initialized_nor_uninitialized() {
    let mut client = NeovimClient::new();
    client.set_error();
    assert!(!client.is_initialized());
    assert!(!client.is_uninitialized());
    assert!(!client.is_initializing());
    client.set_in_progress();
    client.set_error();
    assert!(!client.is_initialized());
    assert!(!client.is_uninitialized());
}

#[test]
fn setters_leave_the_slots_alone() {
    let mut client = NeovimClient::new();
    install(&client, idle_session());
    client.set_in_progress();
    assert!(matches!(client.try_nvim(), Some(NeovimRef::MultiThreaded(_))));
    assert!(promote(&mut client));
    client.set_initialized();
    assert!(matches!(client.try_nvim(), Some(NeovimRef::SingleThreaded(_))));
    client.set_error();
    assert!(matches!(nvim(&mut client), Some(NeovimRef::SingleThreaded(_))));
}

#[test]
fn start_up_then_promotion() {
    let mut client = NeovimClient::new();
    assert!(client.is_uninitialized());
    client.set_in_progress();
    assert!(client.is_initializing());

    let shared = install(&client, idle_session());
    let worker = shared.clone();
    assert!(matches!(worker.try_borrow(), Some(NeovimRef::MultiThreaded(_))));

    assert!(promote(&mut client));
    assert!(shared.try_borrow().is_none());
    assert!(borrow(&shared).is_none());
    assert!(matches!(nvim(&mut client), Some(NeovimRef::SingleThreaded(_))));
    assert!(matches!(client.try_nvim(), Some(NeovimRef::SingleThreaded(_))));
}

#[test]
fn promoted_session_is_borrowed_while_the_shared_lock_is_held() {
    let mut client = NeovimClient::new();
    install(&client, idle_session());
    assert!(promote(&mut client));
    let second = install(&client, idle_session());
    let held = borrow(&second);
    assert!(matches!(held, Some(NeovimRef::MultiThreaded(_))));
    assert!(matches!(nvim(&mut client), Some(NeovimRef::SingleThreaded(_))));
    assert!(matches!(client.try_nvim(), Some(NeovimRef::SingleThreaded(_))));
}

#[test]
fn promotion_over_an_empty_shared_slot_moves_nothing() {
    let mut client = NeovimClient::new();
    client.set_in_progress();
    assert!(!promote(&mut client));
    assert!(nvim(&mut client).is_none());
    assert!(client.is_initializing());

    install(&client, idle_session());
    assert!(promote(&mut client));
    assert!(!promote(&mut client));
    assert!(matches!(nvim(&mut client), Some(NeovimRef::SingleThreaded(_))));
}

#[test]
fn install_replaces_what_the_shared_slot_held() {
    let mut client = NeovimClient::new();
    install(&client, idle_session());
    install(&client, idle_session());
    assert!(matches!(nvim(&mut client), Some(NeovimRef::MultiThreaded(_))));
    assert!(promote(&mut client));
    assert!(!promote(&mut client));
}

#[test]
fn clones_share_one_slot() {
    let client = NeovimClient::new();
    let first = install(&client, idle_session());
    let second = first.clone();
    {
        let held = borrow(&first);
        assert!(held.is_some());
        assert!(second.try_borrow().is_none());
    }
    assert!(second.try_borrow().is_some());
}

#[test]
fn try_borrow_does_not_wait_for_a_held_lock() {
    let mut client = NeovimClient::new();
    let shared = install(&client, idle_session());
    let holder = shared.clone();
    let held = borrow(&holder);
    assert!(held.is_some());
    assert!(shared.try_borrow().is_none());
    assert!(client.try_nvim().is_none());
    drop(held);
    assert!(shared.try_borrow().is_some());
    assert!(client.try_nvim().is_some());
}

#[test]
fn clear_with_nothing_installed_changes_nothing() {
    let mut client = NeovimClient::new();
    client.set_in_progress();
    clear(&mut client);
    assert!(nvim(&mut client).is_none());
    assert!(client.is_initializing());
    clear(&mut client);
    assert!(nvim(&mut client).is_none());
    assert!(client.try_nvim().is_none());
    assert!(client.is_initializing());
}

#[test]
fn clear_twice_leaves_an_empty_state_both_times() {
    let mut client = NeovimClient::new();
    let shared = install(&client, idle_session());
    clear(&mut client);
    assert!(nvim(&mut client).is_none());
    assert!(borrow(&shared).is_none());
    clear(&mut client);
    assert!(nvim(&mut client).is_none());
    assert!(borrow(&shared).is_none());

    install(&client, idle_session());
    assert!(promote(&mut client));
    clear(&mut client);
    assert!(nvim(&mut client).is_none());
    clear(&mut client);
    assert!(nvim(&mut client).is_none());
}

#[test]
fn clear_empties_the_exclusive_slot_before_the_shared_one() {
    let mut client = NeovimClient::new();
    install(&client, idle_session());
    assert!(promote(&mut client));
    install(&client, idle_session());
    clear(&mut client);
    assert!(matches!(nvim(&mut client), Some(NeovimRef::MultiThreaded(_))));
    clear(&mut client);
    assert!(nvim(&mut client).is_none());
}

#[test]
fn clear_keeps_the_lifecycle_flag() {
    let mut client = NeovimClient::new();
    install(&client, idle_session());
    client.set_initialized();
    clear(&mut client);
    assert!(client.is_initialized());
    assert!(nvim(&mut client).is_none());
}

#[test]
fn clear_after_a_borrow_was_given_back() {
    let mut client = NeovimClient::new();
    let shared = install(&client, idle_session());
    {
        let reference = borrow(&shared);
        assert!(reference.is_some());
    }
    clear(&mut client);
    assert!(borrow(&shared).is_none());
    assert!(nvim(&mut client).is_none());
}

#[test]
fn blocking_answer_drops_the_reference() {
    let mut client = NeovimClient::new();
    install(&client, idle_session());
    assert!(promote(&mut client));
    let reference = nvim(&mut client).unwrap();
    assert!(reference.retain_unless_blocked(&blocking()).is_none());
}

#[test]
fn non_blocking_answer_keeps_the_reference() {
    let mut client = NeovimClient::new();
    install(&client, idle_session());
    {
        let reference = nvim(&mut client).unwrap();
        let kept = reference.retain_unless_blocked(&not_blocking());
        assert!(matches!(kept, Some(NeovimRef::MultiThreaded(_))));
    }
    assert!(promote(&mut client));
    let reference = nvim(&mut client).unwrap();
    let kept = reference.retain_unless_blocked(&not_blocking());
    assert!(matches!(kept, Some(NeovimRef::SingleThreaded(_))));
}

#[test]
fn kept_reference_still_holds_the_lock() {
    let client = NeovimClient::new();
    let shared = install(&client, idle_session());
    let kept = borrow(&shared).unwrap().retain_unless_blocked(&not_blocking());
    assert!(kept.is_some());
    assert!(shared.try_borrow().is_none());
    drop(kept);
    assert!(shared.try_borrow().is_some());
}

#[test]
fn dropped_reference_gives_the_lock_back() {
    let client = NeovimClient::new();
    let shared = install(&client, idle_session());
    let dropped = borrow(&shared).unwrap().retain_unless_blocked(&blocking());
    assert!(dropped.is_none());
    assert!(shared.try_borrow().is_some());

    let failed: Result<Vec<(Value, Value)>, CallError> =
        Err(CallError::GenericError("lost".to_owned()));
    assert!(borrow(&shared).unwrap().retain_unless_blocked(&failed).is_none());
    assert!(shared.try_borrow().is_some());

    let silent: Result<Vec<(Value, Value)>, CallError> = Ok(Vec::new());
    assert!(borrow(&shared).unwrap().retain_unless_blocked(&silent).is_none());
    assert!(shared.try_borrow().is_some());
}

#[test]
fn failed_mode_query_counts_as_blocked() {
    let mut client = NeovimClient::new();
    let shared = install(&client, idle_session());
    {
        let mut reference = borrow(&shared).unwrap();
        let mode = reference.deref_mut().get_mode();
        assert!(mode.is_err());
        assert!(reference.retain_unless_blocked(&mode).is_none());
    }
    assert!(shared.try_borrow().is_some());
    assert!(promote(&mut client));
    {
        let mut reference = nvim(&mut client).unwrap();
        let mode = reference.deref_mut().get_mode();
        assert!(reference.retain_unless_blocked(&mode).is_none());
    }
    assert!(nvim(&mut client).is_some());
}

#[test]
fn flag_that_is_no_boolean_drops_the_reference() {
    let client = NeovimClient::new();
    let shared = install(&client, idle_session());
    let number: Result<Vec<(Value, Value)>, CallError> =
        Ok(vec![(Value::from("blocking"), Value::from(1))]);
    assert!(borrow(&shared).unwrap().retain_unless_blocked(&number).is_none());
    assert!(shared.try_borrow().is_some());
    let text: Result<Vec<(Value, Value)>, CallError> =
        Ok(vec![(Value::from("blocking"), Value::from("false"))]);
    assert!(borrow(&shared).unwrap().retain_unless_blocked(&text).is_none());
    let nil: Result<Vec<(Value, Value)>, CallError> =
        Ok(vec![(Value::from("blocking"), Value::Nil)]);
    assert!(borrow(&shared).unwrap().retain_unless_blocked(&nil).is_none());
    assert!(shared.try_borrow().is_some());
}

#[test]
fn nvim_names_the_shared_slot_while_the_exclusive_one_is_empty() {
    let mut client = NeovimClient::new();
    assert!(matches!(client.nvim(), NeovimAccess::Shared(_)));
    let shared = install(&client, idle_session());
    match client.nvim() {
        NeovimAccess::Shared(slot) => {
            let held = borrow(slot);
            assert!(held.is_some());
            assert!(shared.try_borrow().is_none());
        }
        NeovimAccess::Direct(_) => panic!("the exclusive slot is empty"),
    }
    assert!(promote(&mut client));
    assert!(matches!(client.nvim(), NeovimAccess::Direct(NeovimRef::SingleThreaded(_))));
}

#[test]
fn nvim_on_the_exclusive_path_touches_no_lock() {
    let mut client = NeovimClient::new();
    let shared = install(&client, idle_session());
    assert!(promote(&mut client));
    let guard = lock(&shared);
    assert!(matches!(client.nvim(), NeovimAccess::Direct(NeovimRef::SingleThreaded(_))));
    assert!(matches!(client.try_nvim(), Some(NeovimRef::SingleThreaded(_))));
    drop(guard);
}

#[test]
fn clear_names_the_shared_slot_only_over_an_empty_exclusive_one() {
    let mut client = NeovimClient::new();
    install(&client, idle_session());
    assert!(client.clear().is_some());
    assert!(promote(&mut client));
    assert!(client.clear().is_none());
    assert!(nvim(&mut client).is_none());
    assert!(client.clear().is_some());
}

#[test]
fn promotion_empties_the_shared_slot_under_the_same_lock() {
    let mut client = NeovimClient::new();
    let slot = client.shared();
    let mut guard = lock(&slot);
    client.set_nvim_async(&mut guard, idle_session());
    assert!(is_occupied(&guard));
    client.async_to_sync(&mut guard);
    assert!(!is_occupied(&guard));
    assert!(matches!(client.nvim(), NeovimAccess::Direct(NeovimRef::SingleThreaded(_))));
}

#[test]
fn shared_hands_out_the_slot_of_the_client() {
    let client = NeovimClient::new();
    let first = client.shared();
    let second = install(&client, idle_session());
    {
        let held = borrow(&first);
        assert!(held.is_some());
        assert!(second.try_borrow().is_none());
    }
    assert!(second.try_borrow().is_some());
}

#[test]
fn reference_reaches_the_session_on_both_paths() {
    let mut client = NeovimClient::new();
    install(&client, idle_session());
    {
        let mut reference = nvim(&mut client).unwrap();
        let answer = reference.deref_mut().get_mode();
        assert_eq!(answer, Err(CallError::GenericError("Event loop not started".to_owned())));
        let _session: &Neovim = reference.deref();
    }
    assert!(promote(&mut client));
    let mut reference = client.try_nvim().unwrap();
    let answer = reference.deref_mut().get_mode();
    assert_eq!(answer, Err(CallError::GenericError("Event loop not started".to_owned())));
    let _session: &Neovim = reference.deref();
}
