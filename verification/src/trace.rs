//! A model of an operation running against a host.
//!
//! The host is what it holds for the process and the replies it will give, in
//! order. The model says which requests an operation makes of such a host,
//! where it stands when the replies are used up, and what the host then holds.

use vstd::prelude::*;
use crate::host::{HostModel, HostReply, HostRequest};
use crate::operation::StepView;

verus! {

/// What running an operation against a host comes to.
pub struct Trace {
    /// The requests made of the host, in order. Each has its reply at the same
    /// place in the host's replies, but for the last one where the replies ran
    /// out before the operation ended.
    pub requests: Seq<HostRequest>,
    /// Where the operation stands after the last reply.
    pub end: StepView,
    /// The host after the last reply.
    pub host: HostModel,
}

/// Runs `step` against `host`, which answers with `replies` from place `next`
/// on.
pub open spec fn run_from(
    step: StepView,
    host: HostModel,
    replies: Seq<HostReply>,
    next: nat,
) -> Trace
    decreases replies.len() - next,
{
    match step {
        StepView::Done(_) => Trace { requests: Seq::empty(), end: step, host },
        StepView::Call(operation) => {
            let request = operation.spec_request();
            if next >= replies.len() {
                Trace { requests: seq![request], end: step, host }
            } else {
                let reply = replies[next as int];
                let rest = run_from(
                    operation.spec_resume(reply),
                    host.after(request, reply),
                    replies,
                    next + 1,
                );
                Trace { requests: seq![request] + rest.requests, end: rest.end, host: rest.host }
            }
        },
    }
}

/// Runs `step` against `host`, which answers with `replies`.
pub open spec fn run(step: StepView, host: HostModel, replies: Seq<HostReply>) -> Trace {
    run_from(step, host, replies, 0)
}

} // verus!
