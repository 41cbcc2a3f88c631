//! The lifecycle flag of a client handle.

use vstd::prelude::*;

verus! {

/// How far the initialization of the remote process has come.
///
/// The flag holds one value at a time and only moves when a caller moves it:
/// from `Uninitialized` to `InitInProgress`, and from there to `Initialized`
/// or to `Error`.
#[derive(Clone, Copy, PartialEq, Eq, Structural, Debug)]
pub enum NeovimClientState {
    Uninitialized,
    InitInProgress,
    Initialized,
    Error,
}

} // verus!
