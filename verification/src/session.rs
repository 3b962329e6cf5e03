//! Lifecycle state of one connection.

use vstd::prelude::*;

verus! {

/// Lifecycle phase of one language-server connection. A connection starts
/// `Uninitialized`, is driven to `Running` by a successful `initialize`
/// exchange, to `ShuttingDown` by a `shutdown` request, and to the terminal
/// `Exited` by an `exit` notification, which is honoured in every state.
#[derive(Clone, Copy, PartialEq, Eq, Structural, Debug)]
pub enum LifecycleState {
    Uninitialized,
    Initializing,
    Running,
    ShuttingDown,
    Exited,
}

/// The state a fresh connection is in before any message arrived.
pub fn initial_state() -> (s: LifecycleState)
    ensures
        s == LifecycleState::Uninitialized,
{
    LifecycleState::Uninitialized
}

} // verus!
