//! What an operation asks of the host, and what the host answers.
//!
//! The host is taken as it is: a request may be accepted or refused, and an
//! operation learns which only from the reply.

use vstd::prelude::*;
use crate::flags::ExecutionState;
use crate::error::HostError;

verus! {

/// The settle delay between restoring the host's default power behaviour and
/// asking it to suspend, in milliseconds. Requests issued back to back can be
/// ignored by the host; the delay makes that less likely and promises nothing.
pub const SETTLE_DELAY_MS: u64 = 100;

/// How the system is to be suspended.
#[derive(Clone, Copy, Debug, PartialEq, Eq)]
pub struct SuspendMode {
    /// Hibernate instead of sleeping.
    pub hibernate: bool,
    /// Suspend even where another process would veto it.
    pub force: bool,
    /// Suppress the events that would wake the system again at once.
    pub disable_wake_events: bool,
}

/// A one-shot timer that runs detached from its caller: once `seconds` have
/// passed it fires, whatever has been asked of the host in the meantime. It
/// cannot be queried, awaited or cancelled, and timers do not replace each
/// other.
#[derive(Clone, Copy, Debug, PartialEq, Eq)]
pub struct PendingTimer {
    /// The time to wait before firing.
    pub seconds: u64,
}

/// One call that the host has to make for an operation.
#[derive(Clone, Copy, Debug, PartialEq, Eq)]
pub enum HostRequest {
    /// Replace the execution-state flags of the process by these.
    SetExecutionState(ExecutionState),
    /// Report the error that the host recorded for the call it just refused.
    LastError,
    /// Block the calling thread for this many milliseconds.
    Settle { millis: u64 },
    /// Suspend the system in this mode.
    Suspend(SuspendMode),
    /// Start this timer in the background and return at once.
    StartTimer(PendingTimer),
}

/// What the host answered to one request.
#[derive(Clone, Copy, Debug, PartialEq, Eq)]
pub enum HostReply {
    /// The value that came back from setting the execution state: the flags
    /// that were in force before, as the host's bits, or zero where the host
    /// refused.
    ExecutionState { previous: u32 },
    /// The error that the host had recorded.
    LastError(HostError),
    /// The settle delay has passed.
    Settled,
    /// Whether the host accepted the suspend request.
    Suspend { accepted: bool },
    /// The timer is running.
    TimerStarted,
}

impl HostReply {
    /// Whether this is an answer to a request of that kind.
    pub open spec fn answers(self, request: HostRequest) -> bool {
        match (request, self) {
            (HostRequest::SetExecutionState(_), HostReply::ExecutionState { .. }) => true,
            (HostRequest::LastError, HostReply::LastError(_)) => true,
            (HostRequest::Settle { .. }, HostReply::Settled) => true,
            (HostRequest::Suspend(_), HostReply::Suspend { .. }) => true,
            (HostRequest::StartTimer(_), HostReply::TimerStarted) => true,
            _ => false,
        }
    }

    /// Whether the host says that it did what `request` asked for. The error
    /// report and the settle delay cannot be refused.
    pub open spec fn accepts(self, request: HostRequest) -> bool {
        match (request, self) {
            (HostRequest::SetExecutionState(_), HostReply::ExecutionState { previous }) => previous != 0,
            (HostRequest::LastError, HostReply::LastError(_)) => true,
            (HostRequest::Settle { .. }, HostReply::Settled) => true,
            (HostRequest::Suspend(_), HostReply::Suspend { accepted }) => accepted,
            (HostRequest::StartTimer(_), HostReply::TimerStarted) => true,
            _ => false,
        }
    }
}

/// The host as far as the operations can tell: the flags in force for the
/// process, the timers that have been started, and the suspend requests that
/// the host has accepted.
pub struct HostModel {
    /// The execution state in force.
    pub state: ExecutionState,
    /// The timers started so far, oldest first. None of them is ever taken
    /// back: no request cancels or replaces a timer.
    pub timers: Seq<PendingTimer>,
    /// The suspend requests that the host accepted, oldest first.
    pub suspends: Seq<SuspendMode>,
}

impl HostModel {
    /// The host once it has answered `request` with `reply`. An accepted
    /// request to set the execution state replaces the flags in force, an
    /// accepted timer runs beside those already running, an accepted suspend
    /// request is on record; nothing else changes the host, and a request
    /// that it did not accept leaves it as it was.
    pub open spec fn after(self, request: HostRequest, reply: HostReply) -> HostModel {
        if !reply.accepts(request) {
            self
        } else {
            match request {
                HostRequest::SetExecutionState(flags) => HostModel { state: flags, ..self },
                HostRequest::StartTimer(timer) => HostModel {
                    timers: self.timers.push(timer),
                    ..self
                },
                HostRequest::Suspend(mode) => HostModel {
                    suspends: self.suspends.push(mode),
                    ..self
                },
                _ => self,
            }
        }
    }
}

} // verus!
