//! Control of a Windows host's power management, written as decisions.
//!
//! Every operation of [`PowerManager`] is a small state machine. It names the
//! next call that the host has to make ([`HostRequest`]), takes what the host
//! answered ([`HostReply`]) and either names the next call or ends with the
//! operation's result. The code that makes the calls loops over these steps
//! and holds no policy of its own.

pub mod error;
pub mod flags;
pub mod host;
pub mod laws;
pub mod manager;
pub mod operation;
pub mod trace;

pub use error::{HostError, PowerError};
pub use flags::ExecutionState;
pub use host::{HostReply, HostRequest, PendingTimer, SuspendMode, SETTLE_DELAY_MS};
pub use manager::{PowerManager, MAX_MINUTES};
pub use operation::{Continuation, Operation, Step};
