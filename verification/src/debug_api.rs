//! The administrative switch for the dry-run flag: the requests it takes, the
//! response it gives, and what a request does to the flag.

use vstd::prelude::*;

verus! {

/// The port on which the switch is served when none is given.
pub const DEFAULT_DEBUG_API_PORT: u16 = 5555;

/// What a request asks for.
#[derive(Clone, Copy, Debug, PartialEq, Eq, Structural)]
pub enum SetDryRunRequestAction {
    /// Turn the flag over.
    ToggleDryRun,
    /// Set the flag to the given state.
    SetDryRun(bool),
}

impl SetDryRunRequestAction {
    /// The flag after this action, given the flag before it.
    pub open spec fn apply(self, dry_run: bool) -> bool {
        match self {
            SetDryRunRequestAction::ToggleDryRun => !dry_run,
            SetDryRunRequestAction::SetDryRun(state) => state,
        }
    }
}

/// A request to change the dry-run flag.
#[derive(Clone, Copy, Debug, PartialEq, Eq, Structural)]
pub struct SetDryRunRequest {
    pub action: SetDryRunRequestAction,
}

/// The answer to a request: the state of the flag after it.
#[derive(Clone, Copy, Debug, PartialEq, Eq, Structural)]
pub struct SetDryRunResponse {
    pub dry_run_state: bool,
}

/// Carries out `request` on the flag and reports the flag's new state.
pub fn set_dry_run(dry_run: &mut bool, request: SetDryRunRequest) -> (response: SetDryRunResponse)
    ensures
        *final(dry_run) == request.action.apply(*old(dry_run)),
        response.dry_run_state == *final(dry_run),
{
    match request.action {
        SetDryRunRequestAction::ToggleDryRun => {
            *dry_run = !*dry_run;
        },
        SetDryRunRequestAction::SetDryRun(state) => {
            *dry_run = state;
        },
    }
    SetDryRunResponse { dry_run_state: *dry_run }
}

/// Toggling twice leaves the flag as it was, and setting a state twice is the
/// same as setting it once.
pub proof fn lemma_toggle_and_set(dry_run: bool, state: bool)
    ensures
        SetDryRunRequestAction::ToggleDryRun.apply(
            SetDryRunRequestAction::ToggleDryRun.apply(dry_run),
        ) == dry_run,
        SetDryRunRequestAction::SetDryRun(state).apply(
            SetDryRunRequestAction::SetDryRun(state).apply(dry_run),
        ) == state,
{
}

} // verus!
