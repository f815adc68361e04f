//! Singleton coordination: the state machine a process instance walks at
//! launch, driven by whether it acquired the OS-level singleton marker, and
//! the primary's reaction to a forwarded second-instance signal.
//!
//! The marker itself and the IPC channel to the primary are OS facilities
//! owned by the surrounding binary; what is verified here is every decision
//! taken on their outcomes.

use vstd::prelude::*;

verus! {

/// Lifecycle of one process instance with respect to the singleton marker.
#[derive(Clone, Copy, Debug, PartialEq, Eq, Structural)]
pub enum CoordinatorState {
    /// No acquisition attempt has been made yet.
    Unstarted,
    /// This instance holds the marker and serves all command dispatch.
    Primary,
    /// Another instance holds the marker; this one forwards and terminates.
    SecondaryExiting,
}

/// What a freshly launched instance must do next.
#[derive(Clone, Copy, Debug, PartialEq, Eq, Structural)]
pub enum StartupAction {
    /// The marker was acquired: initialize the host shell and serve commands.
    InitializeAndServe,
    /// The marker is held elsewhere: forward the launch's arguments and
    /// working directory to the primary, then terminate with no further side
    /// effects and no output.
    ForwardAndExit,
}

/// The primary's reaction to one forwarded second-instance signal.
#[derive(Clone, Copy, Debug, PartialEq, Eq, Structural)]
pub enum FocusAction {
    /// A main surface exists: request focus on it.
    RaiseMainSurface,
    /// No surface to focus; the signal is dropped silently, which is
    /// acceptable because there was nothing to raise.
    DropSignal,
}

/// The launch transition: where an `Unstarted` instance goes, and what it
/// must do, given the outcome of its one marker-acquisition attempt.
pub open spec fn launch_transition(acquired: bool) -> (CoordinatorState, StartupAction) {
    if acquired {
        (CoordinatorState::Primary, StartupAction::InitializeAndServe)
    } else {
        (CoordinatorState::SecondaryExiting, StartupAction::ForwardAndExit)
    }
}

/// How the primary answers a second-instance signal: raise the main surface
/// when one exists, drop the signal otherwise.
pub open spec fn focus_transition(has_main_surface: bool) -> FocusAction {
    if has_main_surface {
        FocusAction::RaiseMainSurface
    } else {
        FocusAction::DropSignal
    }
}

/// Two instances launched in sequence, under the one guarantee the OS marker
/// gives — it admits at most one holder at a time: then at most one of the
/// two becomes `Primary`, and whichever does not must forward and terminate,
/// so exactly one process remains once the holder exists.
pub proof fn lemma_single_primary(first_acquired: bool, second_acquired: bool)
    requires
        first_acquired ==> !second_acquired,
    ensures
        !(launch_transition(first_acquired).0 == CoordinatorState::Primary
            && launch_transition(second_acquired).0 == CoordinatorState::Primary),
        launch_transition(first_acquired).0 != CoordinatorState::Primary ==> launch_transition(
            first_acquired,
        ).1 == StartupAction::ForwardAndExit,
        launch_transition(second_acquired).0 != CoordinatorState::Primary ==> launch_transition(
            second_acquired,
        ).1 == StartupAction::ForwardAndExit,
        first_acquired ==> launch_transition(second_acquired) == (
            CoordinatorState::SecondaryExiting,
            StartupAction::ForwardAndExit,
        ),
{
}

} // verus!
