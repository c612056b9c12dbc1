//! The command-bus surface of the camera, and the rules that turn each
//! request into device operations.
//!
//! Requests arrive from any number of producers; the single consumer
//! serves them through the arbiter.  This module states, per request,
//! which operating mode the camera must be in first, which control
//! operations run in which order, how raw replies decode, and which
//! inputs are rejected before anything touches the device.

use vstd::prelude::*;
use crate::modes::ExposureMode;
use crate::modes::SaveMedia;
use crate::opcodes::ControlCode;
use crate::opcodes::OperatingMode;
use crate::opcodes::PropertyCode;

verus! {

/// Request to inspect the storage media inside the camera.
#[derive(Debug, Clone, Copy, PartialEq, Eq, Structural)]
pub enum CameraStorageRequest {
    List,
}

/// Request to inspect or download the files stored on the camera.
#[derive(Debug, Clone, Copy, PartialEq, Eq, Structural)]
pub enum CameraFileRequest {
    /// List the files under a folder handle, or the root when absent.
    List { parent: Option<u32> },
    /// Download the file with this handle.
    Get { handle: u32 },
}

/// Request to control the camera's exposure.
#[derive(Debug, Clone, Copy, PartialEq, Eq, Structural)]
pub enum CameraExposureRequest {
    Mode(CameraExposureModeRequest),
}

/// Request to read or set the exposure mode.
#[derive(Debug, Clone, Copy, PartialEq, Eq, Structural)]
pub enum CameraExposureModeRequest {
    Get,
    SetTo { mode: ExposureMode },
}

/// Request to read or set where captured images are saved.
#[derive(Debug, Clone, Copy, PartialEq, Eq, Structural)]
pub enum CameraSaveModeRequest {
    Get,
    SetTo { mode: SaveMedia },
}

/// Request to control the zoom lens.
#[derive(Debug, Clone, Copy, PartialEq, Eq, Structural)]
pub enum CameraZoomRequest {
    Level(CameraZoomLevelRequest),
    Mode(CameraZoomModeRequest),
}

/// Request to read or set the zoom level.
#[derive(Debug, Clone, Copy, PartialEq, Eq, Structural)]
pub enum CameraZoomLevelRequest {
    Get,
    SetTo { level: u8 },
}

/// Request to choose the zoom regime.
#[derive(Debug, Clone, Copy, PartialEq, Eq, Structural)]
pub enum CameraZoomModeRequest {
    Optical,
    OpticalDigital,
}

/// Request to power the camera up or down.
#[derive(Debug, Clone, Copy, PartialEq, Eq, Structural)]
pub enum CameraPowerRequest {
    Up,
    Down,
}

/// Request to control continuous capture.  The interval is carried in
/// tenths of a second, the unit of the device's interval property.
#[derive(Debug, Clone, Copy, PartialEq, Eq, Structural)]
pub enum CameraContinuousCaptureRequest {
    Start,
    Stop,
    Interval { tenths: u16 },
}

/// One request on the camera's command bus.
#[derive(Debug, Clone, Copy, PartialEq, Eq, Structural)]
pub enum CameraRequest {
    /// View information about the storage media inside of the camera.
    Storage(CameraStorageRequest),
    /// View information about stored files; download files.
    File(CameraFileRequest),
    /// Capture an image.
    Capture,
    /// Power the camera up or off.
    Power(CameraPowerRequest),
    /// Disconnect and reconnect to the camera.
    Reconnect,
    /// Control the camera's zoom lens.
    Zoom(CameraZoomRequest),
    /// Control the camera's exposure mode.
    Exposure(CameraExposureRequest),
    /// Control whether the camera saves internally or to the host.
    SaveMode(CameraSaveModeRequest),
    /// Control continuous capture.
    ContinuousCapture(CameraContinuousCaptureRequest),
    /// Perform a hardware reset and reconnect.
    Reset,
}

/// What one storage volume reported about itself.
#[derive(Debug, Clone, PartialEq, Eq)]
pub struct StorageInfo {
    pub max_capacity: u64,
    pub free_space_in_bytes: u64,
    pub access_capability: u16,
    pub volume_label: String,
    pub storage_description: String,
}

/// What one stored object reported about itself.
#[derive(Debug, Clone, PartialEq, Eq)]
pub struct ObjectInfo {
    pub filename: String,
    pub object_format: u16,
    pub object_compressed_size: u32,
}

/// The typed reply to one camera request.
#[derive(Debug, Clone, PartialEq, Eq)]
pub enum CameraResponse {
    Unit,
    Data { data: Vec<u8> },
    File { path: String },
    Download { name: String },
    StorageInfo { storages: Vec<(u32, StorageInfo)> },
    ObjectInfo { objects: Vec<(u32, ObjectInfo)> },
    ZoomLevel { zoom_level: u8 },
    SaveMode { save_mode: SaveMedia },
    ExposureMode { exposure_mode: ExposureMode },
}

/// A camera request paired with its single-use reply channel, as the
/// camera's command bus carries it.
pub type CameraCommand = crate::bus::Command<CameraRequest, CameraResponse>;

/// The operating mode a request needs the camera in before it runs:
/// storage and file work need contents transfer, capturing and power
/// control need still-record, and the rest runs in whatever mode holds.
pub fn required_mode(req: &CameraRequest) -> (r: Option<OperatingMode>)
    ensures
        r == match req {
            CameraRequest::Storage(_) => Some(OperatingMode::ContentsTransfer),
            CameraRequest::File(_) => Some(OperatingMode::ContentsTransfer),
            CameraRequest::Capture => Some(OperatingMode::StillRec),
            CameraRequest::Power(_) => Some(OperatingMode::StillRec),
            _ => None::<OperatingMode>,
        },
{
    match req {
        CameraRequest::Storage(_) => Some(OperatingMode::ContentsTransfer),
        CameraRequest::File(_) => Some(OperatingMode::ContentsTransfer),
        CameraRequest::Capture => Some(OperatingMode::StillRec),
        CameraRequest::Power(_) => Some(OperatingMode::StillRec),
        _ => None,
    }
}

/// Control value that presses a button or starts a recording.
pub const CONTROL_DOWN: u16 = 0x0002;

/// Control value that releases a button or stops a recording.
pub const CONTROL_UP: u16 = 0x0001;

/// The exact button sequence of one capture: half-press to fix the
/// focus, full press to shoot, then release in reverse order.
pub fn capture_sequence() -> (r: Vec<(ControlCode, u16)>)
    ensures
        r@ == seq![
            (ControlCode::S1Button, CONTROL_DOWN as u16),
            (ControlCode::S2Button, CONTROL_DOWN as u16),
            (ControlCode::S2Button, CONTROL_UP as u16),
            (ControlCode::S1Button, CONTROL_UP as u16),
        ],
{
    let mut r: Vec<(ControlCode, u16)> = Vec::new();
    r.push((ControlCode::S1Button, CONTROL_DOWN));
    r.push((ControlCode::S2Button, CONTROL_DOWN));
    r.push((ControlCode::S2Button, CONTROL_UP));
    r.push((ControlCode::S1Button, CONTROL_UP));
    proof {
        assert(r@ =~= seq![
            (ControlCode::S1Button, CONTROL_DOWN as u16),
            (ControlCode::S2Button, CONTROL_DOWN as u16),
            (ControlCode::S2Button, CONTROL_UP as u16),
            (ControlCode::S1Button, CONTROL_UP as u16),
        ]);
    }
    r
}

/// The control operation that starts or stops interval recording.
pub fn continuous_capture_control(start: bool) -> (r: (ControlCode, u16))
    ensures
        r.0 == ControlCode::IntervalStillRecording,
        start ==> r.1 == CONTROL_DOWN,
        !start ==> r.1 == CONTROL_UP,
{
    if start {
        (ControlCode::IntervalStillRecording, CONTROL_DOWN)
    } else {
        (ControlCode::IntervalStillRecording, CONTROL_UP)
    }
}

/// The control operation answering a power request: the power control
/// takes zero to come up and one to go down.
pub fn power_control(req: &CameraPowerRequest) -> (r: (ControlCode, u16))
    ensures
        r.0 == ControlCode::PowerOff,
        req == CameraPowerRequest::Up ==> r.1 == 0,
        req == CameraPowerRequest::Down ==> r.1 == 1,
{
    match req {
        CameraPowerRequest::Up => (ControlCode::PowerOff, 0),
        CameraPowerRequest::Down => (ControlCode::PowerOff, 1),
    }
}

/// Why a continuous-capture interval was rejected.
#[derive(Debug, Clone, Copy, PartialEq, Eq, Structural)]
pub enum IntervalError {
    /// The minimum interval is one second.
    TooShort,
    /// The maximum interval is thirty seconds.
    TooLong,
    /// Valid intervals come in increments of half a second.
    NotHalfStep,
}

/// Shortest accepted capture interval, in tenths of a second.
pub const MIN_INTERVAL_TENTHS: u16 = 10;

/// Longest accepted capture interval, in tenths of a second.
pub const MAX_INTERVAL_TENTHS: u16 = 300;

/// Check a continuous-capture interval, in tenths of a second: it must
/// lie between one and thirty seconds in steps of half a second.  The
/// accepted value is what the device's interval property is then set to.
pub fn validate_capture_interval(tenths: u16) -> (r: Result<u16, IntervalError>)
    ensures
        tenths < MIN_INTERVAL_TENTHS ==> r == Err::<u16, IntervalError>(IntervalError::TooShort),
        tenths > MAX_INTERVAL_TENTHS ==> r == Err::<u16, IntervalError>(IntervalError::TooLong),
        MIN_INTERVAL_TENTHS <= tenths <= MAX_INTERVAL_TENTHS && tenths % 5 != 0 ==> r == Err::<
            u16,
            IntervalError,
        >(IntervalError::NotHalfStep),
        MIN_INTERVAL_TENTHS <= tenths <= MAX_INTERVAL_TENTHS && tenths % 5 == 0 ==> r == Ok::<
            u16,
            IntervalError,
        >(tenths),
{
    if tenths < MIN_INTERVAL_TENTHS {
        Err(IntervalError::TooShort)
    } else if tenths > MAX_INTERVAL_TENTHS {
        Err(IntervalError::TooLong)
    } else if tenths % 5 != 0 {
        Err(IntervalError::NotHalfStep)
    } else {
        Ok(tenths)
    }
}

/// The device reports the zoom position in a 16-bit property; the bus
/// carries the level in its low byte.
pub fn zoom_level_of(value: u16) -> (r: u8)
    ensures
        r == value % 256,
{
    (value % 256) as u8
}

/// Storage id of the logical-storage placeholder: when the device lists
/// it, no real storage is available.
pub const LOGICAL_STORAGE_ID: u32 = 0x00010000;

/// Storage id under which the device exposes its one memory card.
pub const CARD_STORAGE_ID: u32 = 0x00010001;

/// Whether the memory-card storage is listed, which file operations wait
/// for before enumerating objects.
pub fn storage_ready(ids: &Vec<u32>) -> (r: bool)
    ensures
        r == ids@.contains(CARD_STORAGE_ID as u32),
{
    contains_id(ids, CARD_STORAGE_ID)
}

/// Whether only the logical-storage placeholder is listed, meaning no
/// storage is actually available.
pub fn no_logical_storage(ids: &Vec<u32>) -> (r: bool)
    ensures
        r == ids@.contains(LOGICAL_STORAGE_ID as u32),
{
    contains_id(ids, LOGICAL_STORAGE_ID)
}

/// Whether `id` occurs among the listed storage ids.
fn contains_id(ids: &Vec<u32>, id: u32) -> (r: bool)
    ensures
        r == ids@.contains(id),
{
    let mut i: usize = 0;
    while i < ids.len()
        invariant
            i <= ids@.len(),
            forall|j: int| 0 <= j < i ==> ids@[j] != id,
        decreases ids@.len() - i,
    {
        if ids[i] == id {
            return true;
        }
        i = i + 1;
    }
    false
}

/// The policy for waiting for storage to appear: up to ten checks, one
/// second apart, as with the other verify loops.
pub fn storage_wait_policy() -> (r: crate::arbiter::RetryPolicy)
    ensures
        r.max_attempts == 10,
        r.backoff_millis == 1000,
{
    crate::arbiter::RetryPolicy { max_attempts: 10, backoff_millis: 1000 }
}

/// How a capture is confirmed: by a change of the shooting-file counter
/// property or by the vendor capture-complete event, whichever comes
/// first, all bounded by one timeout.
#[derive(Debug, Clone, Copy, PartialEq, Eq, Structural)]
pub struct CaptureConfirmation {
    pub watch_property: PropertyCode,
    pub wait_event: u16,
    pub timeout_millis: u64,
}

/// Vendor event code signaling that a capture produced an image.
pub const CAPTURE_COMPLETE_EVENT: u16 = 0xC204;

/// The confirmation race run after the capture button sequence.
pub fn capture_confirmation() -> (r: CaptureConfirmation)
    ensures
        r.watch_property == PropertyCode::ShootingFileInfo,
        r.wait_event == CAPTURE_COMPLETE_EVENT,
        r.timeout_millis == 3000,
{
    CaptureConfirmation {
        watch_property: PropertyCode::ShootingFileInfo,
        wait_event: CAPTURE_COMPLETE_EVENT,
        timeout_millis: 3000,
    }
}

} // verus!
