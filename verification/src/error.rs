//! Why a power operation failed.

use vstd::prelude::*;

verus! {

/// The error that the host recorded for a call it refused.
#[derive(Clone, Copy, Debug, PartialEq, Eq)]
pub struct HostError {
    /// The host's error code for the calling thread's last failure.
    pub code: i32,
}

/// A failed power operation.
#[derive(Debug, PartialEq, Eq)]
pub enum PowerError {
    /// The host refused a change of the execution state.
    WindowsError(HostError),
    /// The caller asked for a duration outside the accepted range.
    InvalidDuration(String),
    /// The host rejected the request to suspend or hibernate.
    SleepError(String),
}

/// A [`PowerError`] with its descriptions as sequences of characters.
pub enum PowerErrorView {
    WindowsError(HostError),
    InvalidDuration(Seq<char>),
    SleepError(Seq<char>),
}

impl View for PowerError {
    type V = PowerErrorView;

    open spec fn view(&self) -> PowerErrorView {
        match *self {
            PowerError::WindowsError(error) => PowerErrorView::WindowsError(error),
            PowerError::InvalidDuration(text) => PowerErrorView::InvalidDuration(text@),
            PowerError::SleepError(text) => PowerErrorView::SleepError(text@),
        }
    }
}

/// What an `InvalidDuration` error says.
pub open spec fn duration_too_long_text() -> Seq<char> {
    "Duration cannot exceed 24 hours"@
}

/// What a `SleepError` says.
pub open spec fn suspend_rejected_text() -> Seq<char> {
    "Failed to initiate sleep state"@
}

impl PowerError {
    /// The error of a duration above the accepted maximum.
    pub fn duration_too_long() -> (error: PowerError)
        ensures
            error@ == PowerErrorView::InvalidDuration(duration_too_long_text()),
    {
        PowerError::InvalidDuration("Duration cannot exceed 24 hours".to_owned())
    }

    /// The error of a suspend request that the host rejected.
    pub fn suspend_rejected() -> (error: PowerError)
        ensures
            error@ == PowerErrorView::SleepError(suspend_rejected_text()),
    {
        PowerError::SleepError("Failed to initiate sleep state".to_owned())
    }
}

} // verus!
