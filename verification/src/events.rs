//! Events broadcast between the tasks, and the plain data they carry.
//!
//! Broadcasts are at-most-once per subscriber and may drop items for a
//! subscriber that falls behind; that loss is an accepted trade-off of
//! the channel policy, not an error.  Times are carried as milliseconds
//! since the epoch, geographic positions as degrees scaled by ten
//! million, and altitudes in millimetres — the fixed-point units the
//! autopilot protocol itself uses.

use vstd::prelude::*;
use crate::modes::ErrorMode;

verus! {

/// A geographic position in fixed-point units.
#[derive(Debug, Clone, Copy, PartialEq, Eq, Structural)]
pub struct Position {
    /// Latitude in degrees times ten million.
    pub lat_e7: i32,
    /// Longitude in degrees times ten million.
    pub lon_e7: i32,
    /// Altitude in millimetres.
    pub alt_mm: i32,
}

/// An attitude in hundredths of a degree.
#[derive(Debug, Clone, Copy, PartialEq, Eq, Structural)]
pub struct Attitude {
    pub roll_cdeg: i32,
    pub pitch_cdeg: i32,
    pub yaw_cdeg: i32,
}

/// A region of interest the scheduler must prioritize photographing.
#[derive(Debug, Clone, Copy, PartialEq, Eq, Structural)]
pub struct RegionOfInterest {
    pub position: Position,
}

/// The telemetry snapshot stored beside a downloaded image.
#[derive(Debug, Clone, Copy, PartialEq, Eq, Structural)]
pub struct Telemetry {
    pub position: Option<Position>,
    pub attitude: Option<Attitude>,
    /// Milliseconds since the epoch at which the snapshot was taken.
    pub timestamp_millis: i64,
}

/// What the camera task broadcasts.
#[derive(Debug, Clone, PartialEq, Eq)]
pub enum CameraEvent {
    /// An image was captured.
    Capture { timestamp_millis: i64 },
    /// An image was downloaded from the camera.  The timestamp is set
    /// when the image arrived asynchronously via continuous capture.
    Download { image_name: String, image_data: Vec<u8>, cc_timestamp_millis: Option<i64> },
    /// The camera reported an error condition.
    Error(ErrorMode),
}

/// What the image task broadcasts once a download is persisted.
#[derive(Debug, Clone, PartialEq, Eq)]
pub struct ImageClientEvent {
    pub data: Vec<u8>,
    pub file: String,
    pub telemetry: Option<Telemetry>,
}

/// What the scheduler reacts to.
#[derive(Debug, Clone, Copy, PartialEq, Eq, Structural)]
pub enum SchedulerEvent {
    ROI(RegionOfInterest),
    Coverage,
}

/// A request to the auxiliary-camera save task.
#[derive(Debug, Clone, Copy, PartialEq, Eq, Structural)]
pub enum SaveRequest {
    Start {},
    End {},
}

/// The reply of the auxiliary-camera save task.
pub type SaveResponse = ();

} // verus!
