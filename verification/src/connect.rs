//! The camera connection handshake and version negotiation.
//!
//! Connecting is a three-phase handshake around a version negotiation:
//! phases one and two each send a begin-session command carrying the fixed
//! authentication key twice, then extended device info is requested
//! starting at protocol version 1.00 (encoded as the integer 100).  A
//! vendor authentication-failed answer means the version is too low: it is
//! raised by 1.00 and the handshake restarts, capped at 2.00, beyond which
//! the firmware is unsupported.  Any other error is retried a bounded
//! number of times, since the device may be transiently busy finishing its
//! own startup.  On success the info payload is decoded and phase three
//! completes the handshake.  The machine is all-or-nothing: every run ends
//! connected or failed, never in between.
//!
//! This module holds the decisions; the runtime performs the actual
//! transfers and feeds their outcomes back in as `DeviceEvent`s.

use vstd::prelude::*;
use crate::sdio::ExtDeviceInfo;

verus! {

/// The fixed authentication key the begin-session command carries twice.
pub const CONNECT_KEY: u32 = 0x0000DA01;

/// The protocol version negotiation starts at: 1.00, encoded as 100.
pub const VERSION_INITIAL: u16 = 100;

/// The step the version is raised by on an authentication failure.
pub const VERSION_STEP: u16 = 100;

/// The highest protocol version supported: 2.00, encoded as 200.
pub const VERSION_CAP: u16 = 200;

/// How often a transiently failing device-info request is retried before
/// the connection attempt is given up.
pub const MAX_INFO_RETRIES: u16 = 1000;

/// Why a connection attempt ended in failure.
#[derive(Debug, Clone, Copy, PartialEq, Eq, Structural)]
pub enum ConnectError {
    /// A handshake command failed outright.
    Transport,
    /// The device rejected even the highest supported protocol version:
    /// its firmware is newer than this driver supports.
    UnsupportedFirmware,
    /// The device stayed busy past the retry bound.
    Busy,
    /// The device-info payload did not decode.
    Malformed,
}

/// The state of one connection attempt.
#[derive(Debug, Clone)]
pub enum ConnectState {
    /// A begin-session command with phase marker 1 must be sent.
    SendPhase1 { version: u16 },
    /// A begin-session command with phase marker 2 must be sent.
    SendPhase2 { version: u16 },
    /// Extended device info must be requested at this version.
    RequestInfo { version: u16, retries: u16 },
    /// A begin-session command with phase marker 3 must be sent.
    SendPhase3 { info: ExtDeviceInfo },
    /// The handshake completed.
    Connected { info: ExtDeviceInfo },
    /// The handshake failed.
    Failed { error: ConnectError },
}

/// The outcome of the device transfer the current state asked for.
#[derive(Debug, Clone)]
pub enum DeviceEvent {
    /// The command completed.
    Completed,
    /// The device info request completed and its payload decoded.
    Info(ExtDeviceInfo),
    /// The device info request completed but its payload did not decode.
    Malformed,
    /// The device answered with the vendor authentication-failed response.
    AuthFailed,
    /// The command failed in any other way.
    Failed,
}

/// Whether a state ends the connection attempt.
pub open spec fn connect_terminal(s: ConnectState) -> bool {
    s is Connected || s is Failed
}

/// A state the machine can actually reach: the version is one of the
/// negotiated steps and the retry count is within its bound.
pub open spec fn connect_wf(s: ConnectState) -> bool {
    match s {
        ConnectState::SendPhase1 { version } => version == VERSION_INITIAL || version
            == VERSION_CAP,
        ConnectState::SendPhase2 { version } => version == VERSION_INITIAL || version
            == VERSION_CAP,
        ConnectState::RequestInfo { version, retries } => (version == VERSION_INITIAL || version
            == VERSION_CAP) && retries <= MAX_INFO_RETRIES,
        _ => true,
    }
}

/// The transition rule of the handshake.
pub open spec fn spec_connect_step(s: ConnectState, e: DeviceEvent) -> ConnectState {
    match s {
        ConnectState::SendPhase1 { version } => match e {
            DeviceEvent::Completed => ConnectState::SendPhase2 { version },
            _ => ConnectState::Failed { error: ConnectError::Transport },
        },
        ConnectState::SendPhase2 { version } => match e {
            DeviceEvent::Completed => ConnectState::RequestInfo { version, retries: 0 },
            _ => ConnectState::Failed { error: ConnectError::Transport },
        },
        ConnectState::RequestInfo { version, retries } => match e {
            DeviceEvent::Info(info) => ConnectState::SendPhase3 { info },
            DeviceEvent::Malformed => ConnectState::Failed { error: ConnectError::Malformed },
            DeviceEvent::AuthFailed => {
                if version < VERSION_CAP {
                    ConnectState::SendPhase1 { version: (version + VERSION_STEP) as u16 }
                } else {
                    ConnectState::Failed { error: ConnectError::UnsupportedFirmware }
                }
            },
            DeviceEvent::Failed => {
                if retries < MAX_INFO_RETRIES {
                    ConnectState::RequestInfo { version, retries: (retries + 1) as u16 }
                } else {
                    ConnectState::Failed { error: ConnectError::Busy }
                }
            },
            DeviceEvent::Completed => ConnectState::Failed { error: ConnectError::Transport },
        },
        ConnectState::SendPhase3 { info } => match e {
            DeviceEvent::Completed => ConnectState::Connected { info },
            _ => ConnectState::Failed { error: ConnectError::Transport },
        },
        ConnectState::Connected { info } => ConnectState::Connected { info },
        ConnectState::Failed { error } => ConnectState::Failed { error },
    }
}

/// The state a fresh connection attempt starts in.
pub fn connect_start() -> (r: ConnectState)
    ensures
        r == (ConnectState::SendPhase1 { version: VERSION_INITIAL }),
        connect_wf(r),
{
    ConnectState::SendPhase1 { version: VERSION_INITIAL }
}

/// Advance the handshake by one observed device outcome.
pub fn connect_step(s: ConnectState, e: DeviceEvent) -> (r: ConnectState)
    ensures
        r == spec_connect_step(s, e),
{
    match s {
        ConnectState::SendPhase1 { version } => match e {
            DeviceEvent::Completed => ConnectState::SendPhase2 { version },
            _ => ConnectState::Failed { error: ConnectError::Transport },
        },
        ConnectState::SendPhase2 { version } => match e {
            DeviceEvent::Completed => ConnectState::RequestInfo { version, retries: 0 },
            _ => ConnectState::Failed { error: ConnectError::Transport },
        },
        ConnectState::RequestInfo { version, retries } => match e {
            DeviceEvent::Info(info) => ConnectState::SendPhase3 { info },
            DeviceEvent::Malformed => ConnectState::Failed { error: ConnectError::Malformed },
            DeviceEvent::AuthFailed => {
                if version < VERSION_CAP {
                    ConnectState::SendPhase1 { version: version + VERSION_STEP }
                } else {
                    ConnectState::Failed { error: ConnectError::UnsupportedFirmware }
                }
            },
            DeviceEvent::Failed => {
                if retries < MAX_INFO_RETRIES {
                    ConnectState::RequestInfo { version, retries: retries + 1 }
                } else {
                    ConnectState::Failed { error: ConnectError::Busy }
                }
            },
            DeviceEvent::Completed => ConnectState::Failed { error: ConnectError::Transport },
        },
        ConnectState::SendPhase3 { info } => match e {
            DeviceEvent::Completed => ConnectState::Connected { info },
            _ => ConnectState::Failed { error: ConnectError::Transport },
        },
        ConnectState::Connected { info } => ConnectState::Connected { info },
        ConnectState::Failed { error } => ConnectState::Failed { error },
    }
}

/// The parameters a begin-session command carries: the phase marker, then
/// the fixed authentication key twice.
pub fn sdio_connect_params(phase: u32) -> (r: [u32; 3])
    ensures
        r@ == seq![phase, CONNECT_KEY as u32, CONNECT_KEY as u32],
{
    let r: [u32; 3] = [phase, CONNECT_KEY, CONNECT_KEY];
    proof {
        assert(r@ =~= seq![phase, CONNECT_KEY as u32, CONNECT_KEY as u32]);
    }
    r
}

/// Every step preserves well-formedness: in particular the version never
/// rises beyond the cap, so the negotiation never retries past it.
pub proof fn lemma_connect_step_wf(s: ConnectState, e: DeviceEvent)
    requires
        connect_wf(s),
    ensures
        connect_wf(spec_connect_step(s, e)),
{
}

/// How far a state is from the end of the handshake.
pub open spec fn connect_measure(s: ConnectState) -> nat {
    match s {
        ConnectState::SendPhase1 { version } => version_gap(version) + 1004,
        ConnectState::SendPhase2 { version } => version_gap(version) + 1003,
        ConnectState::RequestInfo { version, retries } => if retries <= MAX_INFO_RETRIES {
            (version_gap(version) + 1002 - retries) as nat
        } else {
            version_gap(version)
        },
        ConnectState::SendPhase3 { .. } => 1,
        _ => 0,
    }
}

/// The share of the measure owed to versions not yet tried.
pub open spec fn version_gap(version: u16) -> nat {
    if version <= VERSION_CAP {
        ((VERSION_CAP - version) * 20) as nat
    } else {
        0
    }
}

/// From any reachable non-terminal state, every possible device outcome
/// strictly shrinks the measure, so a connection attempt always ends,
/// connected or failed, after boundedly many transfers: it can never hang
/// in negotiation.
pub proof fn lemma_connect_progress(s: ConnectState, e: DeviceEvent)
    requires
        connect_wf(s),
        !connect_terminal(s),
    ensures
        connect_measure(spec_connect_step(s, e)) < connect_measure(s),
{
}

} // verus!
