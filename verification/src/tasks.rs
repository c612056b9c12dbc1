//! Policies of the long-running tasks: supervision on failure, and the
//! decisions of the search modes.
//!
//! Every long-running loop observes the process-wide interrupt only at
//! its own safe points; the supervisor broadcasts it when any task ends
//! in failure and force-terminates the process if the others do not
//! wind down within a grace period.

use vstd::prelude::*;
use crate::errors::DeviceError;

verus! {

/// What the supervisor does when one task ends.
#[derive(Debug, Clone, Copy, PartialEq, Eq, Structural)]
pub enum SupervisorAction {
    /// The task ended cleanly: keep waiting for the others.
    Continue,
    /// The task failed: broadcast the interrupt and arm a force-quit
    /// after the grace period.
    InterruptAll { grace_millis: u64 },
}

/// How long the supervisor waits for the other tasks to observe the
/// interrupt before force-terminating the process.
pub const SUPERVISOR_GRACE_MILLIS: u64 = 5000;

/// Decide what to do when one task ends: a clean end leaves the rest
/// running, a failure interrupts everyone and arms the force-quit.
pub fn on_task_exit(failed: bool) -> (r: SupervisorAction)
    ensures
        failed ==> r == (SupervisorAction::InterruptAll { grace_millis: SUPERVISOR_GRACE_MILLIS }),
        !failed ==> r == SupervisorAction::Continue,
{
    if failed {
        SupervisorAction::InterruptAll { grace_millis: SUPERVISOR_GRACE_MILLIS }
    } else {
        SupervisorAction::Continue
    }
}

/// Why telemetry could not be read for the distance check.
#[derive(Debug, Clone, Copy, PartialEq, Eq, Structural)]
pub enum ParseTelemetryError {
    /// Invalid latitude given.
    InvalidLat,
    /// Missing longitude given.
    InvalidLon,
}

/// Why a waypoint list could not be parsed.
#[derive(Debug, Clone, Copy, PartialEq, Eq, Structural)]
pub enum ParsePointError {
    /// Invalid coordinates given.
    InvalidCoord,
    /// Missing comma between latitude and longitude.
    MissingComma,
}

/// Why a mode change failed.
#[derive(Debug, Clone, Copy, PartialEq, Eq, Structural)]
pub enum ModeError {
    /// Could not send a request to the camera.
    CameraRequestError,
    /// Invalid waypoint entered.
    WaypointError,
    /// Could not send a request to the gimbal.
    GimbalRequestError,
    /// The camera itself failed.
    Camera(DeviceError),
}

/// The reply of the mode task.
#[derive(Debug, Clone, Copy, PartialEq, Eq, Structural)]
pub enum ModeResponse {
    Response,
}

/// The preset sweeps of the zoom-control mode.
#[derive(Debug, Clone, Copy, PartialEq, Eq, Structural)]
pub enum Presets {
    NoPreset,
    ExPresetName1,
    ExPresetName2,
    ExPresetName3,
    ExPresetName4,
    ExPresetName5,
}

/// Delay between distance checks while waiting to enter or leave the
/// range of a waypoint, in milliseconds.
pub const DISTANCE_POLL_MILLIS: u64 = 250;

/// The threshold a distance transition actually waits on: a grace
/// margin of one metre beyond the configured threshold, outward when
/// waiting to enter and inward when waiting to leave.
pub fn grace_adjusted_threshold(threshold: u64, enter: bool) -> (r: u64)
    requires
        enter ==> threshold < u64::MAX,
        !enter ==> threshold >= 1,
    ensures
        enter ==> r == threshold + 1,
        !enter ==> r == threshold - 1,
{
    if enter {
        threshold + 1
    } else {
        threshold - 1
    }
}

/// Whether the wait of a distance transition is over: waiting ends when
/// being in range coincides with wanting to be in range.
pub fn distance_transition_done(in_range: bool, enter: bool) -> (r: bool)
    ensures
        r == (in_range == enter),
{
    in_range == enter
}

} // verus!
