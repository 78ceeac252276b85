//! What holds of the operations on every host.
//!
//! A host is what it holds for the process and the replies it gives, as in
//! [`run`](crate::trace::run). The laws on a single conversation give the
//! host's replies in full; the others hold whatever the host replies.

use vstd::prelude::*;
use crate::error::{duration_too_long_text, suspend_rejected_text, HostError, PowerErrorView};
use crate::flags::ExecutionState;
use crate::host::{HostModel, HostReply, HostRequest, PendingTimer, SuspendMode, SETTLE_DELAY_MS};
use crate::manager::{PowerManager, MAX_MINUTES};
use crate::operation::{Continuation, Operation, StepView};
use crate::trace::{run, run_from};

verus! {

/// The request that restores the host's default power behaviour.
pub open spec fn restore_request() -> HostRequest {
    HostRequest::SetExecutionState(ExecutionState::spec_host_default())
}

/// The request that keeps the system and the display powered.
pub open spec fn keep_awake_request() -> HostRequest {
    HostRequest::SetExecutionState(ExecutionState::spec_keep_awake())
}

/// Whether an operation has ended with an error of the host.
pub open spec fn ended_with_host_error(end: StepView) -> bool {
    match end {
        StepView::Done(Err(PowerErrorView::WindowsError(_))) => true,
        _ => false,
    }
}

/// On a host that accepts the request, `restore_default` succeeds after that
/// one request and leaves the host's default flags in force, whatever was in
/// force before. It touches neither the timers nor the record of suspends.
pub proof fn restore_default_accepted(host: HostModel, previous: u32)
    requires
        previous != 0,
    ensures
        ({
            let trace = run(
                PowerManager::spec_restore_default(),
                host,
                seq![HostReply::ExecutionState { previous }],
            );
            &&& trace.requests == seq![restore_request()]
            &&& trace.end == StepView::Done(Ok(()))
            &&& trace.host == HostModel { state: ExecutionState::spec_host_default(), ..host }
        }),
{
    reveal_with_fuel(run_from, 3);
}

/// On a host that refuses the request, `restore_default` asks for the host's
/// error and ends with it; the host is left as it was.
pub proof fn restore_default_refused(host: HostModel, error: HostError)
    ensures
        ({
            let trace = run(
                PowerManager::spec_restore_default(),
                host,
                seq![HostReply::ExecutionState { previous: 0 }, HostReply::LastError(error)],
            );
            &&& trace.requests == seq![restore_request(), HostRequest::LastError]
            &&& trace.end == StepView::Done(Err(PowerErrorView::WindowsError(error)))
            &&& trace.host == host
        }),
{
    reveal_with_fuel(run_from, 4);
}

/// `restore_default` twice in a row succeeds both times on a host that
/// accepts, and the second run changes nothing: the host after it is the host
/// after the first.
pub proof fn restore_default_twice(host: HostModel, first_previous: u32, second_previous: u32)
    requires
        first_previous != 0,
        second_previous != 0,
    ensures
        ({
            let first = run(
                PowerManager::spec_restore_default(),
                host,
                seq![HostReply::ExecutionState { previous: first_previous }],
            );
            let second = run(
                PowerManager::spec_restore_default(),
                first.host,
                seq![HostReply::ExecutionState { previous: second_previous }],
            );
            &&& first.end == StepView::Done(Ok(()))
            &&& second.end == StepView::Done(Ok(()))
            &&& second.host == first.host
            &&& second.host.state == ExecutionState::spec_host_default()
        }),
{
    reveal_with_fuel(run_from, 3);
}

/// On a host that accepts the request, `keep_awake_indefinite` succeeds after
/// that one request and leaves the keep-awake flags in force.
pub proof fn keep_awake_indefinite_accepted(host: HostModel, previous: u32)
    requires
        previous != 0,
    ensures
        ({
            let trace = run(
                PowerManager::spec_keep_awake_indefinite(),
                host,
                seq![HostReply::ExecutionState { previous }],
            );
            &&& trace.requests == seq![keep_awake_request()]
            &&& trace.end == StepView::Done(Ok(()))
            &&& trace.host == HostModel { state: ExecutionState::spec_keep_awake(), ..host }
        }),
{
    reveal_with_fuel(run_from, 3);
}

/// On a host that refuses the request, `keep_awake_indefinite` asks for the
/// host's error and ends with it; the host is left as it was.
pub proof fn keep_awake_indefinite_refused(host: HostModel, error: HostError)
    ensures
        ({
            let trace = run(
                PowerManager::spec_keep_awake_indefinite(),
                host,
                seq![HostReply::ExecutionState { previous: 0 }, HostReply::LastError(error)],
            );
            &&& trace.requests == seq![keep_awake_request(), HostRequest::LastError]
            &&& trace.end == StepView::Done(Err(PowerErrorView::WindowsError(error)))
            &&& trace.host == host
        }),
{
    reveal_with_fuel(run_from, 4);
}

/// On a host that accepts the restore, `force_sleep` restores the default
/// flags, waits the settle delay and asks the host to suspend in the mode it
/// was given. It succeeds where the host accepts that request, which is then
/// on the host's record, and ends with a `SleepError` where the host rejects
/// it. Either way the default flags are in force afterwards.
pub proof fn force_sleep_completed(
    hibernate: bool,
    force: bool,
    disable_wake_events: bool,
    host: HostModel,
    previous: u32,
    accepted: bool,
)
    requires
        previous != 0,
    ensures
        ({
            let mode = SuspendMode { hibernate, force, disable_wake_events };
            let trace = run(
                PowerManager::spec_force_sleep(hibernate, force, disable_wake_events),
                host,
                seq![
                    HostReply::ExecutionState { previous },
                    HostReply::Settled,
                    HostReply::Suspend { accepted },
                ],
            );
            &&& trace.requests == seq![
                restore_request(),
                HostRequest::Settle { millis: SETTLE_DELAY_MS },
                HostRequest::Suspend(mode),
            ]
            &&& trace.host.state == ExecutionState::spec_host_default()
            &&& trace.host.timers == host.timers
            &&& accepted ==> trace.end == StepView::Done(Ok(())) && trace.host.suspends
                == host.suspends.push(mode)
            &&& !accepted ==> trace.end == StepView::Done(
                Err(PowerErrorView::SleepError(suspend_rejected_text())),
            ) && trace.host.suspends == host.suspends
        }),
{
    reveal_with_fuel(run_from, 5);
}

/// After a refused request to set the execution state, an operation asks the
/// host for nothing but its error, leaves the host as it is, and can only end
/// with that error.
pub proof fn after_refusal_only_the_error_is_read(
    host: HostModel,
    replies: Seq<HostReply>,
    next: nat,
)
    ensures
        ({
            let trace = run_from(StepView::Call(Operation::ReadError), host, replies, next);
            &&& forall|i: int|
                0 <= i < trace.requests.len() ==> #[trigger] trace.requests[i]
                    == HostRequest::LastError
            &&& trace.host == host
            &&& trace.end == StepView::Call(Operation::ReadError) || ended_with_host_error(
                trace.end,
            )
        }),
    decreases replies.len() - next,
{
    if next < replies.len() {
        let reply = replies[next as int];
        match reply {
            HostReply::LastError(_) => {
                reveal_with_fuel(run_from, 2);
            },
            _ => {
                after_refusal_only_the_error_is_read(host, replies, next + 1);
            },
        }
    }
}

/// Where the host refuses the restore, `force_sleep` fails as
/// `restore_default` does and never gets to the suspend request: it makes the
/// same requests, ends in the same way and leaves the host as it was; it asks
/// for no settle delay and no suspend, and it cannot succeed.
pub proof fn force_sleep_fails_with_restore(
    hibernate: bool,
    force: bool,
    disable_wake_events: bool,
    host: HostModel,
    replies: Seq<HostReply>,
)
    requires
        replies.len() > 0,
        replies[0] == (HostReply::ExecutionState { previous: 0 }),
    ensures
        ({
            let trace = run(
                PowerManager::spec_force_sleep(hibernate, force, disable_wake_events),
                host,
                replies,
            );
            let restore = run(PowerManager::spec_restore_default(), host, replies);
            &&& trace.requests == restore.requests
            &&& trace.end == restore.end
            &&& trace.host == host
            &&& restore.host == host
            &&& forall|i: int|
                0 <= i < trace.requests.len() ==> !(#[trigger] trace.requests[i] is Suspend)
                    && !(trace.requests[i] is Settle)
            &&& trace.end != StepView::Done(Ok(()))
        }),
{
    reveal_with_fuel(run_from, 2);
    after_refusal_only_the_error_is_read(host, replies, 1);
    let rest = run_from(StepView::Call(Operation::ReadError), host, replies, 1);
    let trace = run(
        PowerManager::spec_force_sleep(hibernate, force, disable_wake_events),
        host,
        replies,
    );
    assert(trace.requests == seq![restore_request()] + rest.requests);
    assert forall|i: int| 0 <= i < trace.requests.len() implies !(
    #[trigger] trace.requests[i] is Suspend) && !(trace.requests[i] is Settle) by {
        if i > 0 {
            assert(trace.requests[i] == rest.requests[i - 1]);
        }
    }
}

/// An operation that begins by setting the execution state, from the place
/// `next` in the host's replies: until the host has accepted that request,
/// the operation asks for nothing but the same again or the host's error.
proof fn follow_up_needs_acceptance(
    flags: ExecutionState,
    then: Continuation,
    host: HostModel,
    replies: Seq<HostReply>,
    next: nat,
)
    ensures
        ({
            let set = HostRequest::SetExecutionState(flags);
            let trace = run_from(
                StepView::Call(Operation::SetState { flags, then }),
                host,
                replies,
                next,
            );
            &&& trace.requests.len() > 0
            &&& trace.requests[0] == set
            &&& forall|i: int|
                0 <= i < trace.requests.len() && #[trigger] trace.requests[i] != set
                    && trace.requests[i] != HostRequest::LastError ==> exists|j: int|
                    0 <= j < i && next + j < replies.len() && #[trigger] trace.requests[j] == set
                        && replies[next + j].accepts(set)
        }),
    decreases replies.len() - next,
{
    let set = HostRequest::SetExecutionState(flags);
    let operation = Operation::SetState { flags, then };
    let trace = run_from(StepView::Call(operation), host, replies, next);
    if next < replies.len() {
        let reply = replies[next as int];
        let after = host.after(set, reply);
        let rest = run_from(operation.spec_resume(reply), after, replies, next + 1);
        assert(trace.requests == seq![set] + rest.requests);
        match reply {
            HostReply::ExecutionState { previous } => {
                if previous == 0 {
                    after_refusal_only_the_error_is_read(after, replies, next + 1);
                    assert forall|i: int|
                        0 <= i < trace.requests.len() && #[trigger] trace.requests[i] != set
                            && trace.requests[i] != HostRequest::LastError implies false by {
                        if i > 0 {
                            assert(trace.requests[i] == rest.requests[i - 1]);
                        }
                    }
                } else {
                    assert forall|i: int|
                        0 <= i < trace.requests.len() && #[trigger] trace.requests[i] != set
                            && trace.requests[i] != HostRequest::LastError implies exists|j: int|
                        0 <= j < i && next + j < replies.len() && #[trigger] trace.requests[j]
                            == set && replies[next + j].accepts(set) by {
                        assert(replies[next + 0int].accepts(set));
                    }
                }
            },
            _ => {
                follow_up_needs_acceptance(flags, then, after, replies, next + 1);
                assert forall|i: int|
                    0 <= i < trace.requests.len() && #[trigger] trace.requests[i] != set
                        && trace.requests[i] != HostRequest::LastError implies exists|j: int|
                    0 <= j < i && next + j < replies.len() && #[trigger] trace.requests[j] == set
                        && replies[next + j].accepts(set) by {
                    assert(trace.requests[i] == rest.requests[i - 1]);
                    let k = choose|k: int|
                        0 <= k < i - 1 && next + 1 + k < replies.len() && #[trigger] rest.requests[k]
                            == set && replies[next + 1 + k].accepts(set);
                    assert(trace.requests[k + 1] == rest.requests[k]);
                    assert(replies[next + (k + 1)].accepts(set));
                }
            },
        }
    }
}

/// Whatever the host replies, `force_sleep` begins by restoring the host's
/// default power behaviour, and it asks the host to suspend only after the
/// host has accepted that restore.
pub proof fn force_sleep_restores_first(
    hibernate: bool,
    force: bool,
    disable_wake_events: bool,
    host: HostModel,
    replies: Seq<HostReply>,
)
    ensures
        ({
            let trace = run(
                PowerManager::spec_force_sleep(hibernate, force, disable_wake_events),
                host,
                replies,
            );
            &&& trace.requests.len() > 0
            &&& trace.requests[0] == restore_request()
            &&& forall|i: int|
                0 <= i < trace.requests.len() && #[trigger] trace.requests[i] is Suspend
                    ==> exists|j: int|
                    0 <= j < i && j < replies.len() && #[trigger] trace.requests[j]
                        == restore_request() && replies[j].accepts(restore_request())
        }),
{
    follow_up_needs_acceptance(
        ExecutionState::spec_host_default(),
        Continuation::Sleep(SuspendMode { hibernate, force, disable_wake_events }),
        host,
        replies,
        0,
    );
}

/// On a host that accepts, `keep_awake_for_minutes` with a duration of 1 to
/// 1440 minutes succeeds as soon as the timer runs: it asks the host to keep
/// awake and then to start a timer of `minutes * 60` seconds. When it returns
/// the keep-awake flags are in force, the new timer runs beside the timers
/// that were running before, and the host has not been asked to suspend.
pub proof fn keep_awake_for_minutes_accepted(minutes: u32, host: HostModel, previous: u32)
    requires
        1 <= minutes <= MAX_MINUTES,
        previous != 0,
    ensures
        ({
            let timer = PendingTimer { seconds: (minutes * 60) as u64 };
            let trace = run(
                PowerManager::spec_keep_awake_for_minutes(minutes),
                host,
                seq![HostReply::ExecutionState { previous }, HostReply::TimerStarted],
            );
            &&& trace.requests == seq![keep_awake_request(), HostRequest::StartTimer(timer)]
            &&& trace.end == StepView::Done(Ok(()))
            &&& trace.host.state == ExecutionState::spec_keep_awake()
            &&& trace.host.timers == host.timers.push(timer)
            &&& trace.host.suspends == host.suspends
        }),
{
    reveal_with_fuel(run_from, 4);
}

/// Where the host refuses to keep awake, `keep_awake_for_minutes` with a
/// duration of 1 to 1440 minutes fails as `keep_awake_indefinite` does and
/// starts no timer: it makes the same requests, ends in the same way and
/// leaves the host as it was, and it cannot succeed.
pub proof fn keep_awake_for_minutes_fails_with_keep_awake(
    minutes: u32,
    host: HostModel,
    replies: Seq<HostReply>,
)
    requires
        1 <= minutes <= MAX_MINUTES,
        replies.len() > 0,
        replies[0] == (HostReply::ExecutionState { previous: 0 }),
    ensures
        ({
            let trace = run(PowerManager::spec_keep_awake_for_minutes(minutes), host, replies);
            let keep_awake = run(PowerManager::spec_keep_awake_indefinite(), host, replies);
            &&& trace.requests == keep_awake.requests
            &&& trace.end == keep_awake.end
            &&& trace.host == host
            &&& keep_awake.host == host
            &&& forall|i: int|
                0 <= i < trace.requests.len() ==> !(#[trigger] trace.requests[i] is StartTimer)
            &&& trace.end != StepView::Done(Ok(()))
        }),
{
    reveal_with_fuel(run_from, 2);
    after_refusal_only_the_error_is_read(host, replies, 1);
    let rest = run_from(StepView::Call(Operation::ReadError), host, replies, 1);
    let trace = run(PowerManager::spec_keep_awake_for_minutes(minutes), host, replies);
    assert(trace.requests == seq![keep_awake_request()] + rest.requests);
    assert forall|i: int| 0 <= i < trace.requests.len() implies !(
    #[trigger] trace.requests[i] is StartTimer) by {
        if i > 0 {
            assert(trace.requests[i] == rest.requests[i - 1]);
        }
    }
}

/// Whatever the host replies, `keep_awake_for_minutes` with a duration of 1
/// to 1440 minutes begins by asking the host to keep awake, and it starts a
/// timer only after the host has accepted that request.
pub proof fn keep_awake_for_minutes_keeps_awake_first(
    minutes: u32,
    host: HostModel,
    replies: Seq<HostReply>,
)
    requires
        1 <= minutes <= MAX_MINUTES,
    ensures
        ({
            let trace = run(PowerManager::spec_keep_awake_for_minutes(minutes), host, replies);
            &&& trace.requests.len() > 0
            &&& trace.requests[0] == keep_awake_request()
            &&& forall|i: int|
                0 <= i < trace.requests.len() && #[trigger] trace.requests[i] is StartTimer
                    ==> exists|j: int|
                    0 <= j < i && j < replies.len() && #[trigger] trace.requests[j]
                        == keep_awake_request() && replies[j].accepts(keep_awake_request())
        }),
{
    follow_up_needs_acceptance(
        ExecutionState::spec_keep_awake(),
        Continuation::Timer(PendingTimer { seconds: (minutes * 60) as u64 }),
        host,
        replies,
        0,
    );
}

/// A duration above 1440 minutes is refused before anything is asked of the
/// host: whatever the host would reply, `keep_awake_for_minutes` makes no
/// request, ends with `InvalidDuration` and leaves the host as it was.
pub proof fn keep_awake_for_minutes_too_long(
    minutes: u32,
    host: HostModel,
    replies: Seq<HostReply>,
)
    requires
        minutes > MAX_MINUTES,
    ensures
        ({
            let trace = run(PowerManager::spec_keep_awake_for_minutes(minutes), host, replies);
            &&& trace.requests == Seq::<HostRequest>::empty()
            &&& trace.end == StepView::Done(
                Err(PowerErrorView::InvalidDuration(duration_too_long_text())),
            )
            &&& trace.host == host
        }),
{
}

/// A duration of zero means sleep now: `keep_awake_for_minutes(0)` is the
/// operation `force_sleep(false, false, false)`, and so it makes the same
/// requests, ends in the same way and leaves the host in the same state,
/// whatever the host replies.
pub proof fn keep_awake_for_zero_minutes_is_force_sleep(host: HostModel, replies: Seq<HostReply>)
    ensures
        PowerManager::spec_keep_awake_for_minutes(0) == PowerManager::spec_force_sleep(
            false,
            false,
            false,
        ),
        run(PowerManager::spec_keep_awake_for_minutes(0), host, replies) == run(
            PowerManager::spec_force_sleep(false, false, false),
            host,
            replies,
        ),
{
}

/// Timers do not replace each other: after two runs of
/// `keep_awake_for_minutes` on a host that accepts, both timers are running,
/// the first one started first.
pub proof fn timers_do_not_replace_each_other(
    first_minutes: u32,
    second_minutes: u32,
    host: HostModel,
    first_previous: u32,
    second_previous: u32,
)
    requires
        1 <= first_minutes <= MAX_MINUTES,
        1 <= second_minutes <= MAX_MINUTES,
        first_previous != 0,
        second_previous != 0,
    ensures
        ({
            let first = run(
                PowerManager::spec_keep_awake_for_minutes(first_minutes),
                host,
                seq![
                    HostReply::ExecutionState { previous: first_previous },
                    HostReply::TimerStarted,
                ],
            );
            let second = run(
                PowerManager::spec_keep_awake_for_minutes(second_minutes),
                first.host,
                seq![
                    HostReply::ExecutionState { previous: second_previous },
                    HostReply::TimerStarted,
                ],
            );
            &&& first.end == StepView::Done(Ok(()))
            &&& second.end == StepView::Done(Ok(()))
            &&& second.host.timers == host.timers.push(
                PendingTimer { seconds: (first_minutes * 60) as u64 },
            ).push(PendingTimer { seconds: (second_minutes * 60) as u64 })
        }),
{
    reveal_with_fuel(run_from, 4);
}

/// An operation that only sets the execution state, from the place `next` in
/// the host's replies: it asks for nothing but that and the host's error, and
/// it changes nothing of the host but the flags in force.
proof fn setting_the_state_touches_nothing_else(
    flags: ExecutionState,
    host: HostModel,
    replies: Seq<HostReply>,
    next: nat,
)
    ensures
        ({
            let set = HostRequest::SetExecutionState(flags);
            let trace = run_from(
                StepView::Call(Operation::SetState { flags, then: Continuation::Finish }),
                host,
                replies,
                next,
            );
            &&& forall|i: int|
                0 <= i < trace.requests.len() ==> #[trigger] trace.requests[i] == set
                    || trace.requests[i] == HostRequest::LastError
            &&& trace.host.timers == host.timers
            &&& trace.host.suspends == host.suspends
            &&& trace.host.state == host.state || trace.host.state == flags
        }),
    decreases replies.len() - next,
{
    let set = HostRequest::SetExecutionState(flags);
    let operation = Operation::SetState { flags, then: Continuation::Finish };
    let trace = run_from(StepView::Call(operation), host, replies, next);
    if next < replies.len() {
        let reply = replies[next as int];
        let after = host.after(set, reply);
        let rest = run_from(operation.spec_resume(reply), after, replies, next + 1);
        assert(trace.requests == seq![set] + rest.requests);
        match reply {
            HostReply::ExecutionState { previous } => {
                if previous == 0 {
                    after_refusal_only_the_error_is_read(after, replies, next + 1);
                }
            },
            _ => {
                setting_the_state_touches_nothing_else(flags, after, replies, next + 1);
            },
        }
        assert forall|i: int| 0 <= i < trace.requests.len() implies #[trigger] trace.requests[i]
            == set || trace.requests[i] == HostRequest::LastError by {
            if i > 0 {
                assert(trace.requests[i] == rest.requests[i - 1]);
            }
        }
    }
}

/// `restore_default` stops no timer: whatever the host replies, the timers
/// that were running are still running afterwards. It asks the host for
/// nothing but the default flags and, where refused, the host's error.
pub proof fn restore_default_stops_no_timer(host: HostModel, replies: Seq<HostReply>)
    ensures
        ({
            let trace = run(PowerManager::spec_restore_default(), host, replies);
            &&& forall|i: int|
                0 <= i < trace.requests.len() ==> #[trigger] trace.requests[i]
                    == restore_request() || trace.requests[i] == HostRequest::LastError
            &&& trace.host.timers == host.timers
            &&& trace.host.suspends == host.suspends
        }),
{
    setting_the_state_touches_nothing_else(ExecutionState::spec_host_default(), host, replies, 0);
}

/// `keep_awake_indefinite` stops no timer either: whatever the host replies,
/// the timers that were running are still running afterwards. It asks the
/// host for nothing but the keep-awake flags and, where refused, the host's
/// error.
pub proof fn keep_awake_indefinite_stops_no_timer(host: HostModel, replies: Seq<HostReply>)
    ensures
        ({
            let trace = run(PowerManager::spec_keep_awake_indefinite(), host, replies);
            &&& forall|i: int|
                0 <= i < trace.requests.len() ==> #[trigger] trace.requests[i]
                    == keep_awake_request() || trace.requests[i] == HostRequest::LastError
            &&& trace.host.timers == host.timers
            &&& trace.host.suspends == host.suspends
        }),
{
    setting_the_state_touches_nothing_else(ExecutionState::spec_keep_awake(), host, replies, 0);
}

/// A timer that fires on a host that accepts the restore ends the keep-awake
/// request that was made when it was started: the default flags are in force
/// once it has run, whether or not the host then agrees to sleep, and where
/// it agrees the sleep is cooperative, with wake events left on.
pub proof fn fired_timer_restores_default(
    timer: PendingTimer,
    host: HostModel,
    previous: u32,
    accepted: bool,
)
    requires
        previous != 0,
    ensures
        ({
            let trace = run(
                timer.spec_fire(),
                host,
                seq![
                    HostReply::ExecutionState { previous },
                    HostReply::Settled,
                    HostReply::Suspend { accepted },
                ],
            );
            &&& trace.end is Done
            &&& trace.host.state == ExecutionState::spec_host_default()
            &&& accepted ==> trace.host.suspends == host.suspends.push(
                SuspendMode { hibernate: false, force: false, disable_wake_events: false },
            )
            &&& !accepted ==> trace.host.suspends == host.suspends
        }),
{
    reveal_with_fuel(run_from, 5);
}

} // verus!
