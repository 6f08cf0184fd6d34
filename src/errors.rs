//! The failures that the stream operations report.
use vstd::prelude::*;

verus! {

/// Why an operation was refused. Each is terminal for the request and leaves
/// every record and balance as it was.
#[derive(Clone, Copy, Debug, PartialEq, Eq)]
pub enum CustomErrors {
    /// A principal amount was zero.
    ZeroAmount,
    /// A starting timestamp lay before the current time.
    InvalidTimestamp,
    /// A duration was zero.
    ZeroDuration,
    /// Nothing has vested since the last withdrawal.
    ZeroAmountToEmit,
    /// The current term has not fully elapsed.
    OngoingStream,
}

impl CustomErrors {
    /// The human-readable message of the failure.
    pub fn message(&self) -> (r: &'static str) {
        match self {
            CustomErrors::ZeroAmount => "Amount cannot be zero",
            CustomErrors::InvalidTimestamp => "Invalid timestamp",
            CustomErrors::ZeroDuration => "Duration cannot be zero",
            CustomErrors::ZeroAmountToEmit => "Amount to emit is zero",
            CustomErrors::OngoingStream => "Stream hasn't ended yet",
        }
    }
}

} // verus!
