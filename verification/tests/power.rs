use windows_awake::{
    Continuation, ExecutionState, HostError, HostReply, HostRequest, Operation, PendingTimer,
    PowerError, PowerManager, Step, SuspendMode, MAX_MINUTES, SETTLE_DELAY_MS,
};

const ACCESS_DENIED: i32 = -2147024891;

/// A host kept in memory. It does what it is asked unless told to refuse, and
/// it keeps a record of every request.
struct FakeHost {
    state: ExecutionState,
    refuse_state: bool,
    refuse_suspend: bool,
    last_error: i32,
    requests: Vec<HostRequest>,
    timers: Vec<PendingTimer>,
    suspends: Vec<SuspendMode>,
    settled_ms: u64,
}

impl FakeHost {
    fn new() -> FakeHost {
        FakeHost {
            state: ExecutionState::host_default(),
            refuse_state: false,
            refuse_suspend: false,
            last_error: 0,
            requests: Vec::new(),
            timers: Vec::new(),
            suspends: Vec::new(),
            settled_ms: 0,
        }
    }

    fn bits(state: ExecutionState) -> u32 {
        let mut bits = 0;
        if state.continuous {
            bits |= 0x8000_0000;
        }
        if state.system_required {
            bits |= 0x0000_0001;
        }
        if state.display_required {
            bits |= 0x0000_0002;
        }
        bits
    }

    fn perform(&mut self, request: HostRequest) -> HostReply {
        self.requests.push(request);
        match request {
            HostRequest::SetExecutionState(flags) => {
                if self.refuse_state {
                    self.last_error = ACCESS_DENIED;
                    HostReply::ExecutionState { previous: 0 }
                } else {
                    let previous = FakeHost::bits(self.state);
                    self.state = flags;
                    HostReply::ExecutionState { previous }
                }
            }
            HostRequest::LastError => HostReply::LastError(HostError { code: self.last_error }),
            HostRequest::Settle { millis } => {
                self.settled_ms += millis;
                HostReply::Settled
            }
            HostRequest::Suspend(mode) => {
                if self.refuse_suspend {
                    HostReply::Suspend { accepted: false }
                } else {
                    self.suspends.push(mode);
                    HostReply::Suspend { accepted: true }
                }
            }
            HostRequest::StartTimer(timer) => {
                self.timers.push(timer);
                HostReply::TimerStarted
            }
        }
    }

    fn run(&mut self, start: Step) -> Result<(), PowerError> {
        let mut step = start;
        loop {
            match step {
                Step::Done(result) => return result,
                Step::Call(operation) => {
                    let reply = self.perform(operation.request());
                    step = operation.resume(reply);
                }
            }
        }
    }

    /// Lets every timer that is running fire, in the order in which they were
    /// started, and drops what each of them ends with.
    fn fire_timers(&mut self) {
        let timers: Vec<PendingTimer> = self.timers.drain(..).collect();
        for timer in timers {
            let _ = self.run(timer.fire());
        }
    }
}

fn plain_sleep() -> SuspendMode {
    SuspendMode { hibernate: false, force: false, disable_wake_events: false }
}

#[test]
fn test_power_management() {
    let mut host = FakeHost::new();
    let power_manager = PowerManager::new();

    assert!(host.run(power_manager.keep_awake_indefinite()).is_ok());
    assert!(host.run(power_manager.restore_default()).is_ok());

    assert!(host.run(power_manager.keep_awake_for_minutes(1)).is_ok());
    host.fire_timers();

    assert!(host.run(power_manager.keep_awake_for_minutes(1441)).is_err());
}

#[test]
fn keep_awake_then_restore_then_too_long() {
    let mut host = FakeHost::new();
    let manager = PowerManager::new();
    assert_eq!(host.run(manager.keep_awake_indefinite()), Ok(()));
    assert_eq!(host.state, ExecutionState::keep_awake());
    assert_eq!(host.run(manager.restore_default()), Ok(()));
    assert_eq!(host.state, ExecutionState::host_default());
    let result = host.run(manager.keep_awake_for_minutes(1441));
    assert!(matches!(result, Err(PowerError::InvalidDuration(_))));
}

#[test]
fn timer_of_one_minute_reverts_to_default() {
    let mut host = FakeHost::new();
    let manager = PowerManager::new();
    assert_eq!(host.run(manager.keep_awake_for_minutes(1)), Ok(()));
    assert_eq!(host.state, ExecutionState::keep_awake());
    assert_eq!(host.timers, vec![PendingTimer { seconds: 60 }]);
    assert!(host.suspends.is_empty());

    host.fire_timers();

    assert_eq!(host.state, ExecutionState::host_default());
    assert!(!host.state.system_required);
    assert!(!host.state.display_required);
    assert_eq!(host.suspends, vec![plain_sleep()]);
    assert!(host.timers.is_empty());
}

#[test]
fn hibernate_disallowed_by_policy_is_a_sleep_error() {
    let mut host = FakeHost::new();
    host.refuse_suspend = true;
    let manager = PowerManager::new();
    let result = host.run(manager.force_sleep(true, false, false));
    assert_eq!(
        result,
        Err(PowerError::SleepError("Failed to initiate sleep state".to_string()))
    );
    assert!(host.suspends.is_empty());
    assert_eq!(host.state, ExecutionState::host_default());
}

#[test]
fn durations_in_range_keep_awake_and_start_a_timer() {
    let cases: [(u32, u64); 5] = [(1, 60), (2, 120), (90, 5400), (720, 43200), (1440, 86400)];
    for (minutes, seconds) in cases {
        let mut host = FakeHost::new();
        let manager = PowerManager::new();
        assert_eq!(host.run(manager.keep_awake_for_minutes(minutes)), Ok(()));
        assert_eq!(host.state, ExecutionState::keep_awake());
        assert_eq!(
            host.requests,
            vec![
                HostRequest::SetExecutionState(ExecutionState::keep_awake()),
                HostRequest::StartTimer(PendingTimer { seconds }),
            ]
        );
        assert_eq!(host.run(manager.restore_default()), Ok(()));
    }
}

#[test]
fn keep_awake_for_minutes_returns_before_the_timer_fires() {
    let mut host = FakeHost::new();
    let manager = PowerManager::new();
    assert_eq!(host.run(manager.keep_awake_for_minutes(30)), Ok(()));
    assert_eq!(host.settled_ms, 0);
    assert!(host.suspends.is_empty());
    assert_eq!(host.timers.len(), 1);
}

#[test]
fn durations_above_a_day_are_refused_without_side_effects() {
    for minutes in [1441, 1442, 10_000, u32::MAX] {
        let mut host = FakeHost::new();
        let manager = PowerManager::new();
        assert_eq!(host.run(manager.keep_awake_indefinite()), Ok(()));
        host.requests.clear();

        let step = manager.keep_awake_for_minutes(minutes);
        assert_eq!(
            step,
            Step::Done(Err(PowerError::InvalidDuration(
                "Duration cannot exceed 24 hours".to_string()
            )))
        );
        assert!(host.run(step).is_err());
        assert!(host.requests.is_empty());
        assert!(host.timers.is_empty());
        assert_eq!(host.state, ExecutionState::keep_awake());
    }
}

#[test]
fn the_longest_duration_is_a_day() {
    assert_eq!(MAX_MINUTES, 1440);
    let manager = PowerManager::new();
    assert!(matches!(manager.keep_awake_for_minutes(1440), Step::Call(_)));
    assert!(matches!(manager.keep_awake_for_minutes(1441), Step::Done(Err(_))));
}

#[test]
fn zero_minutes_is_sleep_now() {
    let manager = PowerManager::new();
    assert_eq!(manager.keep_awake_for_minutes(0), manager.force_sleep(false, false, false));

    let mut by_duration = FakeHost::new();
    let mut direct = FakeHost::new();
    assert_eq!(
        by_duration.run(manager.keep_awake_for_minutes(0)),
        direct.run(manager.force_sleep(false, false, false))
    );
    assert_eq!(by_duration.requests, direct.requests);
    assert_eq!(by_duration.state, direct.state);
    assert_eq!(by_duration.suspends, vec![plain_sleep()]);
    assert!(by_duration.timers.is_empty());
}

#[test]
fn zero_minutes_fails_as_sleep_now_does() {
    let manager = PowerManager::new();
    let mut by_duration = FakeHost::new();
    by_duration.refuse_suspend = true;
    let mut direct = FakeHost::new();
    direct.refuse_suspend = true;
    let result = by_duration.run(manager.keep_awake_for_minutes(0));
    assert!(matches!(result, Err(PowerError::SleepError(_))));
    assert_eq!(result, direct.run(manager.force_sleep(false, false, false)));
}

#[test]
fn restore_default_twice_succeeds() {
    let mut host = FakeHost::new();
    let manager = PowerManager::new();
    assert_eq!(host.run(manager.restore_default()), Ok(()));
    let after_first = host.state;
    assert_eq!(host.run(manager.restore_default()), Ok(()));
    assert_eq!(host.state, after_first);
    assert_eq!(host.state, ExecutionState::host_default());
    assert_eq!(
        host.requests,
        vec![
            HostRequest::SetExecutionState(ExecutionState::host_default()),
            HostRequest::SetExecutionState(ExecutionState::host_default()),
        ]
    );
}

#[test]
fn restore_default_clears_keep_awake() {
    let mut host = FakeHost::new();
    let manager = PowerManager::new();
    assert_eq!(host.run(manager.keep_awake_indefinite()), Ok(()));
    assert!(host.state.system_required && host.state.display_required);
    assert_eq!(host.run(manager.restore_default()), Ok(()));
    assert!(host.state.continuous);
    assert!(!host.state.system_required && !host.state.display_required);
}

#[test]
fn force_sleep_restores_then_settles_then_suspends() {
    let modes = [
        (false, false, false),
        (true, false, false),
        (false, true, false),
        (false, false, true),
        (false, true, true),
        (true, true, true),
    ];
    for (hibernate, force, disable_wake_events) in modes {
        let mut host = FakeHost::new();
        let manager = PowerManager::new();
        assert_eq!(host.run(manager.keep_awake_indefinite()), Ok(()));
        host.requests.clear();

        assert_eq!(host.run(manager.force_sleep(hibernate, force, disable_wake_events)), Ok(()));
        let mode = SuspendMode { hibernate, force, disable_wake_events };
        assert_eq!(
            host.requests,
            vec![
                HostRequest::SetExecutionState(ExecutionState::host_default()),
                HostRequest::Settle { millis: 100 },
                HostRequest::Suspend(mode),
            ]
        );
        assert_eq!(host.suspends, vec![mode]);
        assert_eq!(host.settled_ms, 100);
        assert_eq!(host.state, ExecutionState::host_default());
    }
}

#[test]
fn the_settle_delay_is_a_tenth_of_a_second() {
    assert_eq!(SETTLE_DELAY_MS, 100);
}

#[test]
fn force_sleep_fails_without_suspending_when_restore_fails() {
    let mut host = FakeHost::new();
    let manager = PowerManager::new();
    assert_eq!(host.run(manager.keep_awake_indefinite()), Ok(()));
    host.requests.clear();
    host.refuse_state = true;

    let result = host.run(manager.force_sleep(false, true, true));
    assert_eq!(result, Err(PowerError::WindowsError(HostError { code: ACCESS_DENIED })));
    assert_eq!(
        host.requests,
        vec![
            HostRequest::SetExecutionState(ExecutionState::host_default()),
            HostRequest::LastError,
        ]
    );
    assert!(host.suspends.is_empty());
    assert_eq!(host.settled_ms, 0);
    assert_eq!(host.state, ExecutionState::keep_awake());
}

#[test]
fn force_sleep_fails_as_restore_default_does() {
    let manager = PowerManager::new();
    let mut sleeping = FakeHost::new();
    sleeping.refuse_state = true;
    let mut restoring = FakeHost::new();
    restoring.refuse_state = true;
    assert_eq!(
        sleeping.run(manager.force_sleep(true, false, false)),
        restoring.run(manager.restore_default())
    );
    assert_eq!(sleeping.requests, restoring.requests);
}

#[test]
fn keep_awake_indefinite_reports_the_host_error() {
    let mut host = FakeHost::new();
    host.refuse_state = true;
    let manager = PowerManager::new();
    let result = host.run(manager.keep_awake_indefinite());
    assert_eq!(result, Err(PowerError::WindowsError(HostError { code: ACCESS_DENIED })));
    assert_eq!(host.state, ExecutionState::host_default());
    assert_eq!(
        host.requests,
        vec![
            HostRequest::SetExecutionState(ExecutionState::keep_awake()),
            HostRequest::LastError,
        ]
    );
}

#[test]
fn restore_default_reports_the_host_error() {
    let mut host = FakeHost::new();
    host.refuse_state = true;
    let manager = PowerManager::new();
    let result = host.run(manager.restore_default());
    assert_eq!(result, Err(PowerError::WindowsError(HostError { code: ACCESS_DENIED })));
}

#[test]
fn no_timer_is_started_when_keep_awake_fails() {
    let mut host = FakeHost::new();
    host.refuse_state = true;
    let manager = PowerManager::new();
    let result = host.run(manager.keep_awake_for_minutes(5));
    assert_eq!(result, Err(PowerError::WindowsError(HostError { code: ACCESS_DENIED })));
    assert!(host.timers.is_empty());
    assert_eq!(
        host.requests,
        vec![
            HostRequest::SetExecutionState(ExecutionState::keep_awake()),
            HostRequest::LastError,
        ]
    );
}

#[test]
fn overlapping_timers_all_fire() {
    let mut host = FakeHost::new();
    let manager = PowerManager::new();
    assert_eq!(host.run(manager.keep_awake_for_minutes(1)), Ok(()));
    assert_eq!(host.run(manager.keep_awake_for_minutes(2)), Ok(()));
    assert_eq!(host.timers, vec![PendingTimer { seconds: 60 }, PendingTimer { seconds: 120 }]);

    host.fire_timers();

    assert_eq!(host.suspends, vec![plain_sleep(), plain_sleep()]);
    assert_eq!(host.state, ExecutionState::host_default());
}

#[test]
fn restore_default_does_not_stop_a_timer() {
    let mut host = FakeHost::new();
    let manager = PowerManager::new();
    assert_eq!(host.run(manager.keep_awake_for_minutes(10)), Ok(()));
    assert_eq!(host.run(manager.restore_default()), Ok(()));
    assert_eq!(host.timers, vec![PendingTimer { seconds: 600 }]);

    host.fire_timers();

    assert_eq!(host.suspends, vec![plain_sleep()]);
}

#[test]
fn a_timer_that_cannot_suspend_tells_nobody() {
    let mut host = FakeHost::new();
    let manager = PowerManager::new();
    assert_eq!(host.run(manager.keep_awake_for_minutes(1)), Ok(()));
    host.refuse_suspend = true;
    host.fire_timers();
    assert!(host.suspends.is_empty());
    assert_eq!(host.state, ExecutionState::host_default());
}

#[test]
fn a_fired_timer_is_a_plain_sleep() {
    let manager = PowerManager::new();
    assert_eq!(PendingTimer { seconds: 60 }.fire(), manager.force_sleep(false, false, false));
    assert_eq!(PendingTimer { seconds: 0 }.fire(), manager.force_sleep(false, false, false));
}

#[test]
fn operations_begin_with_the_execution_state() {
    let manager = PowerManager::new();
    assert_eq!(
        manager.restore_default(),
        Step::Call(Operation::SetState {
            flags: ExecutionState::host_default(),
            then: Continuation::Finish,
        })
    );
    assert_eq!(
        manager.keep_awake_indefinite(),
        Step::Call(Operation::SetState {
            flags: ExecutionState::keep_awake(),
            then: Continuation::Finish,
        })
    );
    assert_eq!(
        manager.force_sleep(true, false, true),
        Step::Call(Operation::SetState {
            flags: ExecutionState::host_default(),
            then: Continuation::Sleep(SuspendMode {
                hibernate: true,
                force: false,
                disable_wake_events: true,
            }),
        })
    );
    assert_eq!(
        manager.keep_awake_for_minutes(3),
        Step::Call(Operation::SetState {
            flags: ExecutionState::keep_awake(),
            then: Continuation::Timer(PendingTimer { seconds: 180 }),
        })
    );
}

#[test]
fn a_reply_of_another_kind_changes_nothing() {
    let mode = SuspendMode { hibernate: true, force: false, disable_wake_events: false };
    let timer = PendingTimer { seconds: 60 };
    let waiting = [
        Operation::SetState { flags: ExecutionState::keep_awake(), then: Continuation::Finish },
        Operation::ReadError,
        Operation::Settle(mode),
        Operation::Suspend(mode),
        Operation::StartTimer(timer),
    ];
    let replies = [
        HostReply::ExecutionState { previous: 1 },
        HostReply::LastError(HostError { code: 5 }),
        HostReply::Settled,
        HostReply::Suspend { accepted: true },
        HostReply::TimerStarted,
    ];
    for (i, operation) in waiting.iter().enumerate() {
        for (j, reply) in replies.iter().enumerate() {
            let step = operation.resume(*reply);
            if i == j {
                assert_ne!(step, Step::Call(*operation));
            } else {
                assert_eq!(step, Step::Call(*operation));
            }
        }
    }
}

#[test]
fn each_operation_names_its_request() {
    let mode = SuspendMode { hibernate: false, force: true, disable_wake_events: false };
    let timer = PendingTimer { seconds: 7 };
    let flags = ExecutionState::keep_awake();
    assert_eq!(
        Operation::SetState { flags, then: Continuation::Sleep(mode) }.request(),
        HostRequest::SetExecutionState(flags)
    );
    assert_eq!(Operation::ReadError.request(), HostRequest::LastError);
    assert_eq!(Operation::Settle(mode).request(), HostRequest::Settle { millis: 100 });
    assert_eq!(Operation::Suspend(mode).request(), HostRequest::Suspend(mode));
    assert_eq!(Operation::StartTimer(timer).request(), HostRequest::StartTimer(timer));
}

#[test]
fn resume_follows_the_reply() {
    let mode = SuspendMode { hibernate: false, force: false, disable_wake_events: true };
    let timer = PendingTimer { seconds: 60 };
    let flags = ExecutionState::host_default();

    let set = Operation::SetState { flags, then: Continuation::Sleep(mode) };
    assert_eq!(
        set.resume(HostReply::ExecutionState { previous: 0 }),
        Step::Call(Operation::ReadError)
    );
    assert_eq!(
        set.resume(HostReply::ExecutionState { previous: 0x8000_0000 }),
        Step::Call(Operation::Settle(mode))
    );
    assert_eq!(
        set.resume(HostReply::ExecutionState { previous: 1 }),
        Step::Call(Operation::Settle(mode))
    );
    let then_timer = Operation::SetState { flags, then: Continuation::Timer(timer) };
    assert_eq!(
        then_timer.resume(HostReply::ExecutionState { previous: 0x8000_0003 }),
        Step::Call(Operation::StartTimer(timer))
    );
    let then_finish = Operation::SetState { flags, then: Continuation::Finish };
    assert_eq!(then_finish.resume(HostReply::ExecutionState { previous: 2 }), Step::Done(Ok(())));

    assert_eq!(
        Operation::ReadError.resume(HostReply::LastError(HostError { code: -5 })),
        Step::Done(Err(PowerError::WindowsError(HostError { code: -5 })))
    );
    assert_eq!(
        Operation::Settle(mode).resume(HostReply::Settled),
        Step::Call(Operation::Suspend(mode))
    );
    assert_eq!(
        Operation::Suspend(mode).resume(HostReply::Suspend { accepted: true }),
        Step::Done(Ok(()))
    );
    assert_eq!(
        Operation::Suspend(mode).resume(HostReply::Suspend { accepted: false }),
        Step::Done(Err(PowerError::suspend_rejected()))
    );
    assert_eq!(
        Operation::StartTimer(timer).resume(HostReply::TimerStarted),
        Step::Done(Ok(()))
    );
}

#[test]
fn continuations_begin_what_follows() {
    let mode = SuspendMode { hibernate: true, force: true, disable_wake_events: false };
    let timer = PendingTimer { seconds: 3600 };
    assert_eq!(Continuation::Finish.begin(), Step::Done(Ok(())));
    assert_eq!(Continuation::Sleep(mode).begin(), Step::Call(Operation::Settle(mode)));
    assert_eq!(Continuation::Timer(timer).begin(), Step::Call(Operation::StartTimer(timer)));
}

#[test]
fn the_flag_sets() {
    let awake = ExecutionState::keep_awake();
    assert!(awake.continuous && awake.system_required && awake.display_required);
    let default = ExecutionState::host_default();
    assert!(default.continuous && !default.system_required && !default.display_required);
    assert_ne!(awake, default);
}

#[test]
fn the_error_texts() {
    assert_eq!(
        PowerError::duration_too_long(),
        PowerError::InvalidDuration("Duration cannot exceed 24 hours".to_string())
    );
    assert_eq!(
        PowerError::suspend_rejected(),
        PowerError::SleepError("Failed to initiate sleep state".to_string())
    );
}

#[test]
fn handles_hold_nothing() {
    let first = PowerManager::new();
    let second = PowerManager::default();
    assert_eq!(first.restore_default(), second.restore_default());
    assert_eq!(format!("{:?}", first), "PowerManager");

    let mut host = FakeHost::new();
    assert_eq!(host.run(first.keep_awake_indefinite()), Ok(()));
    assert_eq!(host.run(second.restore_default()), Ok(()));
    assert_eq!(host.state, ExecutionState::host_default());
}
