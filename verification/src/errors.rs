//! The error taxonomy of the device layer.
//!
//! No wire-data-driven condition may terminate the process: malformed or
//! unrecognized protocol data is either skipped where the per-field
//! policy says so, or turned into one of these typed errors.  An
//! abandoned reply channel is not here: it is discarded internally and
//! never surfaced.

use vstd::prelude::*;

verus! {

/// What went wrong with a device operation.
#[derive(Debug, Clone, Copy, PartialEq, Eq, Structural)]
pub enum DeviceError {
    /// Transport-level failure; fatal to the owning device task and
    /// surfaced to the supervisor.
    Transport,
    /// Malformed frame or payload; recoverable locally by resynchronizing
    /// or skipping, never fatal by itself.
    Protocol,
    /// The device answered with an explicit failure result code;
    /// propagated only to the caller whose command triggered it.
    RemoteRejection { code: u32 },
    /// A transient failure during negotiation or verification, surfaced
    /// only after the retries ran out.
    DeviceBusy,
    /// The write went out but the expected state was not observed within
    /// the deadline; distinct, so callers can retry at a higher level
    /// rather than assume the write failed.
    ConfirmationTimeout,
}

impl DeviceError {
    /// A short, stable description of the error.
    pub fn describe(&self) -> (r: &'static str)
        ensures
            r@.len() > 0,
    {
        let r: &'static str = match *self {
            DeviceError::Transport => "transport failure",
            DeviceError::Protocol => "malformed protocol data",
            DeviceError::RemoteRejection { .. } => "rejected by device",
            DeviceError::DeviceBusy => "device busy",
            DeviceError::ConfirmationTimeout => "confirmation timeout",
        };
        proof {
            reveal_strlit("transport failure");
            reveal_strlit("malformed protocol data");
            reveal_strlit("rejected by device");
            reveal_strlit("device busy");
            reveal_strlit("confirmation timeout");
        }
        r
    }
}

} // verus!
