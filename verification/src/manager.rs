//! The handle through which the power operations are started.

use vstd::prelude::*;
use crate::error::{duration_too_long_text, PowerError, PowerErrorView};
use crate::flags::ExecutionState;
use crate::host::{PendingTimer, SuspendMode};
use crate::operation::{Continuation, Operation, Step, StepView};

verus! {

/// The longest time, in minutes, for which the system can be kept awake
/// before it is put to sleep: 24 hours.
pub const MAX_MINUTES: u32 = 1440;

/// A handle on the host's power management. It holds nothing: the flags it
/// speaks of belong to the process, and any handle may overwrite what another
/// one asked for.
#[derive(Debug, Default)]
pub struct PowerManager;

impl PowerManager {
    /// A new handle.
    #[must_use]
    pub fn new() -> (manager: Self)
        ensures
            manager == PowerManager,
    {
        PowerManager
    }

    /// How `force_sleep` begins.
    pub open spec fn spec_force_sleep(
        hibernate: bool,
        force: bool,
        disable_wake_events: bool,
    ) -> StepView {
        StepView::Call(
            Operation::SetState {
                flags: ExecutionState::spec_host_default(),
                then: Continuation::Sleep(SuspendMode { hibernate, force, disable_wake_events }),
            },
        )
    }

    /// How `keep_awake_indefinite` begins.
    pub open spec fn spec_keep_awake_indefinite() -> StepView {
        StepView::Call(
            Operation::SetState {
                flags: ExecutionState::spec_keep_awake(),
                then: Continuation::Finish,
            },
        )
    }

    /// How `keep_awake_for_minutes` begins, or ends at once.
    pub open spec fn spec_keep_awake_for_minutes(minutes: u32) -> StepView {
        if minutes == 0 {
            Self::spec_force_sleep(false, false, false)
        } else if minutes > MAX_MINUTES {
            StepView::Done(Err(PowerErrorView::InvalidDuration(duration_too_long_text())))
        } else {
            StepView::Call(
                Operation::SetState {
                    flags: ExecutionState::spec_keep_awake(),
                    then: Continuation::Timer(PendingTimer { seconds: (minutes * 60) as u64 }),
                },
            )
        }
    }

    /// How `restore_default` begins.
    pub open spec fn spec_restore_default() -> StepView {
        StepView::Call(
            Operation::SetState {
                flags: ExecutionState::spec_host_default(),
                then: Continuation::Finish,
            },
        )
    }

    /// Puts the system to sleep, or into hibernation where `hibernate` is
    /// set. With `force` the host suspends even where another process would
    /// veto it; with `disable_wake_events` it suppresses the events that would
    /// wake the system again at once.
    ///
    /// The operation first restores the host's default power behaviour, so
    /// that no keep-awake request stands in the way. Where the host refuses
    /// that, the operation ends with the host's error and asks for nothing
    /// more. Otherwise it lets the change settle and then asks the host to
    /// suspend; it ends with a `SleepError` where the host rejects that. The
    /// host may suspend the calling process before it sees the success.
    pub fn force_sleep(&self, hibernate: bool, force: bool, disable_wake_events: bool) -> (step:
        Step)
        ensures
            step@ == Self::spec_force_sleep(hibernate, force, disable_wake_events),
    {
        Step::Call(
            Operation::SetState {
                flags: ExecutionState::host_default(),
                then: Continuation::Sleep(SuspendMode { hibernate, force, disable_wake_events }),
            },
        )
    }

    /// Keeps the system and the display powered until `restore_default`
    /// clears the request. Ends with the host's error where the host refuses.
    pub fn keep_awake_indefinite(&self) -> (step: Step)
        ensures
            step@ == Self::spec_keep_awake_indefinite(),
    {
        Step::Call(
            Operation::SetState { flags: ExecutionState::keep_awake(), then: Continuation::Finish },
        )
    }

    /// Keeps the system awake now and puts it to sleep after `minutes`.
    ///
    /// A duration of zero means sleep now: the operation is that of
    /// `force_sleep(false, false, false)`. A duration above [`MAX_MINUTES`]
    /// ends at once with `InvalidDuration`, before anything is asked of the
    /// host. Any other duration asks the host to keep awake and, where it
    /// accepts, to start a timer of `minutes * 60` seconds; the operation
    /// succeeds as soon as the timer runs, and what the timer meets when it
    /// fires is not reported to anyone.
    pub fn keep_awake_for_minutes(&self, minutes: u32) -> (step: Step)
        ensures
            step@ == Self::spec_keep_awake_for_minutes(minutes),
            minutes == 0 ==> step@ == Self::spec_force_sleep(false, false, false),
            minutes > MAX_MINUTES <==> step@ == StepView::Done(
                Err(PowerErrorView::InvalidDuration(duration_too_long_text())),
            ),
            minutes <= MAX_MINUTES <==> step@ is Call,
    {
        if minutes == 0 {
            return self.force_sleep(false, false, false);
        }
        if minutes > MAX_MINUTES {
            return Step::Done(Err(PowerError::duration_too_long()));
        }
        let seconds: u64 = (minutes as u64) * 60;
        Step::Call(
            Operation::SetState {
                flags: ExecutionState::keep_awake(),
                then: Continuation::Timer(PendingTimer { seconds }),
            },
        )
    }

    /// Clears every keep-awake request. Where none is in force the host's
    /// flags stay as they are. Ends with the host's error where the host
    /// refuses.
    pub fn restore_default(&self) -> (step: Step)
        ensures
            step@ == Self::spec_restore_default(),
    {
        Step::Call(
            Operation::SetState {
                flags: ExecutionState::host_default(),
                then: Continuation::Finish,
            },
        )
    }
}

impl PendingTimer {
    /// What the timer does when it fires.
    pub open spec fn spec_fire(self) -> StepView {
        PowerManager::spec_force_sleep(false, false, false)
    }

    /// Fires the timer: a new handle puts the system to sleep, cooperatively
    /// and with wake events left on. Whoever runs the timer drops the result
    /// of that operation, since the caller that started the timer has long
    /// returned.
    pub fn fire(self) -> (step: Step)
        ensures
            step@ == self.spec_fire(),
    {
        let manager = PowerManager::new();
        manager.force_sleep(false, false, false)
    }
}

} // verus!
