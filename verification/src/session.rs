//! The session: discovery first, then control, each ended by a line from
//! the user; and which failures end it early.

use vstd::prelude::*;

verus! {

/// Where the session stands.
#[derive(Clone, Copy, Debug, PartialEq, Eq, Structural)]
pub enum Phase {
    /// Devices are being looked for.
    Discovery,
    /// Input drives the devices.
    Control,
    /// The session is over.
    Finished,
}

/// What can go wrong.
#[derive(Clone, Copy, Debug, PartialEq, Eq, Structural)]
pub enum Failure {
    /// Connecting to the device server or scanning failed.
    Discovery,
    /// A command to one device failed.
    Transport,
    /// The input source could not be listened to.
    InputCapture,
}

/// What happens to the session.
#[derive(Clone, Copy, Debug, PartialEq, Eq, Structural)]
pub enum SessionEvent {
    /// The user sent a line.
    Enter,
    /// Something failed.
    Failed(Failure),
}

/// What the program does next.
#[derive(Clone, Copy, Debug, PartialEq, Eq, Structural)]
pub enum Action {
    /// Nothing: go on as before.
    Proceed,
    /// Stop the scan, wait for it to end, take the fleet as it is and
    /// start capture and dispatch.
    BeginControl,
    /// Stop all devices, wait until that is done, and leave.
    Shutdown,
    /// Report the failure and leave.
    Abort,
}

/// Whether a failure ends the session. A command that one device fails to
/// take does not: the next tick sends the speed again.
pub open spec fn is_fatal(failure: Failure) -> bool {
    failure != Failure::Transport
}

/// Phase and action that follow `event` in `phase`.
pub open spec fn session_step(phase: Phase, event: SessionEvent) -> (Phase, Action) {
    match (phase, event) {
        (Phase::Finished, _) => (Phase::Finished, Action::Proceed),
        (Phase::Discovery, SessionEvent::Enter) => (Phase::Control, Action::BeginControl),
        (Phase::Control, SessionEvent::Enter) => (Phase::Finished, Action::Shutdown),
        (_, SessionEvent::Failed(failure)) => if is_fatal(failure) {
            (Phase::Finished, Action::Abort)
        } else {
            (phase, Action::Proceed)
        },
    }
}

/// Whether `failure` ends the session.
pub fn fatal(failure: Failure) -> (yes: bool)
    ensures
        yes == is_fatal(failure),
{
    match failure {
        Failure::Transport => false,
        Failure::Discovery => true,
        Failure::InputCapture => true,
    }
}

/// Takes the session from `phase` through `event`.
pub fn advance(phase: Phase, event: SessionEvent) -> (next: (Phase, Action))
    ensures
        next == session_step(phase, event),
        event == SessionEvent::Failed(Failure::Transport) ==> next == (phase, Action::Proceed),
{
    match phase {
        Phase::Finished => (Phase::Finished, Action::Proceed),
        Phase::Discovery => match event {
            SessionEvent::Enter => (Phase::Control, Action::BeginControl),
            SessionEvent::Failed(failure) => if fatal(failure) {
                (Phase::Finished, Action::Abort)
            } else {
                (Phase::Discovery, Action::Proceed)
            },
        },
        Phase::Control => match event {
            SessionEvent::Enter => (Phase::Finished, Action::Shutdown),
            SessionEvent::Failed(failure) => if fatal(failure) {
                (Phase::Finished, Action::Abort)
            } else {
                (Phase::Control, Action::Proceed)
            },
        },
    }
}

} // verus!
