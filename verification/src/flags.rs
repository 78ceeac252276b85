//! The execution-state flags of the calling process, as the host keeps them.

use vstd::prelude::*;

verus! {

/// A set of execution-state flags: what a process asks of the host's idle
/// timers. The host keeps one such set for the whole process; it belongs to no
/// handle, and the last request wins.
#[derive(Clone, Copy, Debug, PartialEq, Eq)]
pub struct ExecutionState {
    /// The request stays in force until the next one replaces it.
    pub continuous: bool,
    /// The system is kept from sleeping on idle.
    pub system_required: bool,
    /// The display is kept from turning off on idle.
    pub display_required: bool,
}

impl ExecutionState {
    /// The flags of a keep-awake request: continuous, with the system and the
    /// display both required.
    pub open spec fn spec_keep_awake() -> ExecutionState {
        ExecutionState { continuous: true, system_required: true, display_required: true }
    }

    /// The flags of the host's own power behaviour: continuous alone.
    pub open spec fn spec_host_default() -> ExecutionState {
        ExecutionState { continuous: true, system_required: false, display_required: false }
    }

    /// The flags that keep the system and the display powered until cleared.
    pub fn keep_awake() -> (state: ExecutionState)
        ensures
            state == Self::spec_keep_awake(),
    {
        ExecutionState { continuous: true, system_required: true, display_required: true }
    }

    /// The flags that clear every keep-awake request.
    pub fn host_default() -> (state: ExecutionState)
        ensures
            state == Self::spec_host_default(),
    {
        ExecutionState { continuous: true, system_required: false, display_required: false }
    }
}

} // verus!
