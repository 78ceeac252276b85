//! An operation in progress: the call it waits for, and how it goes on.

use vstd::prelude::*;
use crate::error::{suspend_rejected_text, PowerError, PowerErrorView};
use crate::flags::ExecutionState;
use crate::host::{HostReply, HostRequest, PendingTimer, SuspendMode, SETTLE_DELAY_MS};

verus! {

/// What an operation does once the host has accepted its change of the
/// execution state.
#[derive(Clone, Copy, Debug, PartialEq, Eq)]
pub enum Continuation {
    /// Nothing more: the operation has succeeded.
    Finish,
    /// Let the change settle, then suspend the system.
    Sleep(SuspendMode),
    /// Start the timer that will put the system to sleep.
    Timer(PendingTimer),
}

/// An operation that waits for the host to answer one request.
#[derive(Clone, Copy, Debug, PartialEq, Eq)]
pub enum Operation {
    /// The host is asked to set the execution state.
    SetState { flags: ExecutionState, then: Continuation },
    /// The host refused to set the execution state and is asked why.
    ReadError,
    /// The settle delay is running; the suspend request follows it.
    Settle(SuspendMode),
    /// The host is asked to suspend the system.
    Suspend(SuspendMode),
    /// The host is asked to start the timer.
    StartTimer(PendingTimer),
}

/// Where an operation stands: at a call to the host, or at its end.
#[derive(Debug, PartialEq, Eq)]
pub enum Step {
    /// The host has to make the call that the operation names, and the
    /// operation resumes with its reply.
    Call(Operation),
    /// The operation has ended with this result.
    Done(Result<(), PowerError>),
}

/// A [`Step`] with its error taken by its view.
pub enum StepView {
    Call(Operation),
    Done(Result<(), PowerErrorView>),
}

impl View for Step {
    type V = StepView;

    open spec fn view(&self) -> StepView {
        match *self {
            Step::Call(operation) => StepView::Call(operation),
            Step::Done(Ok(())) => StepView::Done(Ok(())),
            Step::Done(Err(error)) => StepView::Done(Err(error@)),
        }
    }
}

impl Continuation {
    /// The step that follows an accepted change of the execution state.
    pub open spec fn spec_begin(self) -> StepView {
        match self {
            Continuation::Finish => StepView::Done(Ok(())),
            Continuation::Sleep(mode) => StepView::Call(Operation::Settle(mode)),
            Continuation::Timer(timer) => StepView::Call(Operation::StartTimer(timer)),
        }
    }

    /// Goes on after the host accepted the change of the execution state.
    pub fn begin(self) -> (step: Step)
        ensures
            step@ == self.spec_begin(),
    {
        match self {
            Continuation::Finish => Step::Done(Ok(())),
            Continuation::Sleep(mode) => Step::Call(Operation::Settle(mode)),
            Continuation::Timer(timer) => Step::Call(Operation::StartTimer(timer)),
        }
    }
}

impl Operation {
    /// The request that the operation waits on.
    pub open spec fn spec_request(self) -> HostRequest {
        match self {
            Operation::SetState { flags, .. } => HostRequest::SetExecutionState(flags),
            Operation::ReadError => HostRequest::LastError,
            Operation::Settle(_) => HostRequest::Settle { millis: SETTLE_DELAY_MS },
            Operation::Suspend(mode) => HostRequest::Suspend(mode),
            Operation::StartTimer(timer) => HostRequest::StartTimer(timer),
        }
    }

    /// The step that follows `reply`.
    ///
    /// A reply that does not answer the pending request changes nothing: the
    /// operation still waits on the same request. A refused change of the
    /// execution state ends the operation with the host's error, once the host
    /// has reported it, and nothing that was to follow the change is asked
    /// for. A rejected suspend request ends it with a `SleepError`.
    pub open spec fn spec_resume(self, reply: HostReply) -> StepView {
        match (self, reply) {
            (Operation::SetState { then, .. }, HostReply::ExecutionState { previous }) => {
                if previous == 0 {
                    StepView::Call(Operation::ReadError)
                } else {
                    then.spec_begin()
                }
            },
            (Operation::ReadError, HostReply::LastError(error)) => {
                StepView::Done(Err(PowerErrorView::WindowsError(error)))
            },
            (Operation::Settle(mode), HostReply::Settled) => {
                StepView::Call(Operation::Suspend(mode))
            },
            (Operation::Suspend(_), HostReply::Suspend { accepted }) => {
                if accepted {
                    StepView::Done(Ok(()))
                } else {
                    StepView::Done(Err(PowerErrorView::SleepError(suspend_rejected_text())))
                }
            },
            (Operation::StartTimer(_), HostReply::TimerStarted) => StepView::Done(Ok(())),
            _ => StepView::Call(self),
        }
    }

    /// The call that the host has to make now.
    pub fn request(&self) -> (request: HostRequest)
        ensures
            request == self.spec_request(),
    {
        match *self {
            Operation::SetState { flags, .. } => HostRequest::SetExecutionState(flags),
            Operation::ReadError => HostRequest::LastError,
            Operation::Settle(_) => HostRequest::Settle { millis: SETTLE_DELAY_MS },
            Operation::Suspend(mode) => HostRequest::Suspend(mode),
            Operation::StartTimer(timer) => HostRequest::StartTimer(timer),
        }
    }

    /// Takes the host's reply to the pending request and decides how the
    /// operation goes on.
    pub fn resume(self, reply: HostReply) -> (step: Step)
        ensures
            step@ == self.spec_resume(reply),
            !reply.answers(self.spec_request()) ==> step@ == StepView::Call(self),
    {
        match self {
            Operation::SetState { flags, then } => match reply {
                HostReply::ExecutionState { previous } => {
                    if previous == 0 {
                        Step::Call(Operation::ReadError)
                    } else {
                        then.begin()
                    }
                },
                _ => Step::Call(self),
            },
            Operation::ReadError => match reply {
                HostReply::LastError(error) => Step::Done(Err(PowerError::WindowsError(error))),
                _ => Step::Call(self),
            },
            Operation::Settle(mode) => match reply {
                HostReply::Settled => Step::Call(Operation::Suspend(mode)),
                _ => Step::Call(self),
            },
            Operation::Suspend(mode) => match reply {
                HostReply::Suspend { accepted } => {
                    if accepted {
                        Step::Done(Ok(()))
                    } else {
                        Step::Done(Err(PowerError::suspend_rejected()))
                    }
                },
                _ => Step::Call(self),
            },
            Operation::StartTimer(timer) => match reply {
                HostReply::TimerStarted => Step::Done(Ok(())),
                _ => Step::Call(self),
            },
        }
    }
}

} // verus!
