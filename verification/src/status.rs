//! Result codes of the device transport layer and the failures built on them.
use vstd::prelude::*;

verus! {

/// Result code of a call that succeeded with nothing to add.
pub const S_OK: i32 = 0;

/// Result code with which the format query declines the candidate format.
pub const S_FALSE: i32 = 1;

/// Result code of a call on an endpoint that was unplugged or reconfigured.
pub const AUDCLNT_E_DEVICE_INVALIDATED: i32 = -2004287484;

/// The three ways in which the session reads a result code.
#[derive(Clone, Copy, Debug, PartialEq, Eq, Structural)]
pub enum Status {
    /// The call did its work.
    Success,
    /// The endpoint is gone; another endpoint, or a later attempt, may work.
    DeviceInvalidated,
    /// Any other failure; the session cannot recover from it.
    Failure,
}

/// How the session reads `code`: negative codes are failures, and among them
/// only [`AUDCLNT_E_DEVICE_INVALIDATED`] is set apart.
pub open spec fn status_of(code: i32) -> Status {
    if code >= 0 {
        Status::Success
    } else if code == AUDCLNT_E_DEVICE_INVALIDATED {
        Status::DeviceInvalidated
    } else {
        Status::Failure
    }
}

/// Reads a result code.
pub fn classify(code: i32) -> (status: Status)
    ensures
        status == status_of(code),
{
    if code >= 0 {
        Status::Success
    } else if code == AUDCLNT_E_DEVICE_INVALIDATED {
        Status::DeviceInvalidated
    } else {
        Status::Failure
    }
}

/// A condition from which a stream does not recover. Nothing is retried after
/// one of these; the caller decides how to stop.
#[derive(Clone, Copy, Debug, PartialEq, Eq, Structural)]
pub enum Fault {
    /// A device call failed with this result code.
    Device(i32),
    /// What the device negotiated cannot back a session: a count, rate, frame
    /// size or capacity of zero, or a frame size that is not channels times
    /// the sample width.
    InvalidFormat,
    /// An answer arrived that no request in flight was waiting for.
    UnexpectedReply,
    /// A session was asked for before the handshake had come to its end.
    Unfinished,
    /// The device reported more queued frames than its buffer holds.
    PaddingExceedsCapacity,
    /// The caller asked for room for less than one whole frame.
    NothingRequested,
    /// A claim on the device buffer is still open.
    LeaseOutstanding,
    /// The writable region differs in length from what was claimed.
    RegionMismatch,
}

/// Why no session came to be.
#[derive(Clone, Copy, Debug, PartialEq, Eq, Structural)]
pub enum CreationError {
    /// The endpoint reported itself invalidated during the handshake.
    DeviceNotAvailable,
    /// The device declined the requested format and offered no other.
    FormatNotSupported,
    /// Anything else that went wrong.
    Fatal(Fault),
}

/// The construction failure that a failed result code stands for.
pub open spec fn failure_of(code: i32) -> CreationError {
    if code == AUDCLNT_E_DEVICE_INVALIDATED {
        CreationError::DeviceNotAvailable
    } else {
        CreationError::Fatal(Fault::Device(code))
    }
}

} // verus!
