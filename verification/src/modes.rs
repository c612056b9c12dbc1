//! Wire tables for the camera's enumerated state values: exposure, focus,
//! drive, zoom, compression, save destination and error flags.
//!
//! As with the opcode tables, every mapping is total and lossless, and
//! decoding an unknown wire value yields `None` instead of failing.

use vstd::prelude::*;

verus! {

/// Exposure program modes.
#[derive(Debug, Clone, Copy, PartialEq, Eq, Structural, Hash)]
pub enum ExposureMode {
    ManualExposure,
    ProgramAuto,
    AperturePriority,
    ShutterPriority,
    IntelligentAuto,
    SuperiorAuto,
    MovieProgramAuto,
    MovieAperturePriority,
    MovieShutterPriority,
    MovieManualExposure,
    MovieIntelligentAuto,
}

/// The fixed wire identifier of each ExposureMode.
pub open spec fn spec_exposure_mode_wire(c: ExposureMode) -> u16 {
    match c {
        ExposureMode::ManualExposure => 0x0001,
        ExposureMode::ProgramAuto => 0x0002,
        ExposureMode::AperturePriority => 0x0003,
        ExposureMode::ShutterPriority => 0x0004,
        ExposureMode::IntelligentAuto => 0x8000,
        ExposureMode::SuperiorAuto => 0x8001,
        ExposureMode::MovieProgramAuto => 0x8050,
        ExposureMode::MovieAperturePriority => 0x8051,
        ExposureMode::MovieShutterPriority => 0x8052,
        ExposureMode::MovieManualExposure => 0x8053,
        ExposureMode::MovieIntelligentAuto => 0x8054,
    }
}

/// The ExposureMode that a wire identifier stands for, if any.
pub open spec fn spec_exposure_mode_of_wire(n: u16) -> Option<ExposureMode> {
    if n == 0x0001 {
        Some(ExposureMode::ManualExposure)
    } else if n == 0x0002 {
        Some(ExposureMode::ProgramAuto)
    } else if n == 0x0003 {
        Some(ExposureMode::AperturePriority)
    } else if n == 0x0004 {
        Some(ExposureMode::ShutterPriority)
    } else if n == 0x8000 {
        Some(ExposureMode::IntelligentAuto)
    } else if n == 0x8001 {
        Some(ExposureMode::SuperiorAuto)
    } else if n == 0x8050 {
        Some(ExposureMode::MovieProgramAuto)
    } else if n == 0x8051 {
        Some(ExposureMode::MovieAperturePriority)
    } else if n == 0x8052 {
        Some(ExposureMode::MovieShutterPriority)
    } else if n == 0x8053 {
        Some(ExposureMode::MovieManualExposure)
    } else if n == 0x8054 {
        Some(ExposureMode::MovieIntelligentAuto)
    } else {
        None
    }
}

impl ExposureMode {
    /// Decode a wire identifier; unknown identifiers map to `None`.
    pub fn from_u16(n: u16) -> (r: Option<ExposureMode>)
        ensures
            r == spec_exposure_mode_of_wire(n),
    {
        if n == 0x0001 {
            Some(ExposureMode::ManualExposure)
        } else if n == 0x0002 {
            Some(ExposureMode::ProgramAuto)
        } else if n == 0x0003 {
            Some(ExposureMode::AperturePriority)
        } else if n == 0x0004 {
            Some(ExposureMode::ShutterPriority)
        } else if n == 0x8000 {
            Some(ExposureMode::IntelligentAuto)
        } else if n == 0x8001 {
            Some(ExposureMode::SuperiorAuto)
        } else if n == 0x8050 {
            Some(ExposureMode::MovieProgramAuto)
        } else if n == 0x8051 {
            Some(ExposureMode::MovieAperturePriority)
        } else if n == 0x8052 {
            Some(ExposureMode::MovieShutterPriority)
        } else if n == 0x8053 {
            Some(ExposureMode::MovieManualExposure)
        } else if n == 0x8054 {
            Some(ExposureMode::MovieIntelligentAuto)
        } else {
            None
        }
    }

    /// Encode to the wire identifier.
    pub fn to_u16(&self) -> (r: u16)
        ensures
            r == spec_exposure_mode_wire(*self),
    {
        match *self {
            ExposureMode::ManualExposure => 0x0001,
            ExposureMode::ProgramAuto => 0x0002,
            ExposureMode::AperturePriority => 0x0003,
            ExposureMode::ShutterPriority => 0x0004,
            ExposureMode::IntelligentAuto => 0x8000,
            ExposureMode::SuperiorAuto => 0x8001,
            ExposureMode::MovieProgramAuto => 0x8050,
            ExposureMode::MovieAperturePriority => 0x8051,
            ExposureMode::MovieShutterPriority => 0x8052,
            ExposureMode::MovieManualExposure => 0x8053,
            ExposureMode::MovieIntelligentAuto => 0x8054,
        }
    }
}

/// The mapping between ExposureMode and its wire identifier is lossless:
/// decoding an encoded code yields the code itself.
pub proof fn lemma_exposure_mode_wire_lossless(c: ExposureMode)
    ensures
        spec_exposure_mode_of_wire(spec_exposure_mode_wire(c)) == Some(c),
{
}

/// Focus modes.
#[derive(Debug, Clone, Copy, PartialEq, Eq, Structural, Hash)]
pub enum FocusMode {
    Manual,
    AutoFocusStill,
    AutoFocusContinuous,
}

/// The fixed wire identifier of each FocusMode.
pub open spec fn spec_focus_mode_wire(c: FocusMode) -> u16 {
    match c {
        FocusMode::Manual => 0x0001,
        FocusMode::AutoFocusStill => 0x0002,
        FocusMode::AutoFocusContinuous => 0x8004,
    }
}

/// The FocusMode that a wire identifier stands for, if any.
pub open spec fn spec_focus_mode_of_wire(n: u16) -> Option<FocusMode> {
    if n == 0x0001 {
        Some(FocusMode::Manual)
    } else if n == 0x0002 {
        Some(FocusMode::AutoFocusStill)
    } else if n == 0x8004 {
        Some(FocusMode::AutoFocusContinuous)
    } else {
        None
    }
}

impl FocusMode {
    /// Decode a wire identifier; unknown identifiers map to `None`.
    pub fn from_u16(n: u16) -> (r: Option<FocusMode>)
        ensures
            r == spec_focus_mode_of_wire(n),
    {
        if n == 0x0001 {
            Some(FocusMode::Manual)
        } else if n == 0x0002 {
            Some(FocusMode::AutoFocusStill)
        } else if n == 0x8004 {
            Some(FocusMode::AutoFocusContinuous)
        } else {
            None
        }
    }

    /// Encode to the wire identifier.
    pub fn to_u16(&self) -> (r: u16)
        ensures
            r == spec_focus_mode_wire(*self),
    {
        match *self {
            FocusMode::Manual => 0x0001,
            FocusMode::AutoFocusStill => 0x0002,
            FocusMode::AutoFocusContinuous => 0x8004,
        }
    }
}

/// The mapping between FocusMode and its wire identifier is lossless:
/// decoding an encoded code yields the code itself.
pub proof fn lemma_focus_mode_wire_lossless(c: FocusMode)
    ensures
        spec_focus_mode_of_wire(spec_focus_mode_wire(c)) == Some(c),
{
}

/// Focus state indications.
#[derive(Debug, Clone, Copy, PartialEq, Eq, Structural, Hash)]
pub enum FocusIndication {
    AFUnlock,
    AFLock,
    AFWarning,
    Focusing,
    FocusedContinuous,
}

/// The fixed wire identifier of each FocusIndication.
pub open spec fn spec_focus_indication_wire(c: FocusIndication) -> u8 {
    match c {
        FocusIndication::AFUnlock => 0x0001,
        FocusIndication::AFLock => 0x0002,
        FocusIndication::AFWarning => 0x0003,
        FocusIndication::Focusing => 0x0005,
        FocusIndication::FocusedContinuous => 0x0006,
    }
}

/// The FocusIndication that a wire identifier stands for, if any.
pub open spec fn spec_focus_indication_of_wire(n: u8) -> Option<FocusIndication> {
    if n == 0x0001 {
        Some(FocusIndication::AFUnlock)
    } else if n == 0x0002 {
        Some(FocusIndication::AFLock)
    } else if n == 0x0003 {
        Some(FocusIndication::AFWarning)
    } else if n == 0x0005 {
        Some(FocusIndication::Focusing)
    } else if n == 0x0006 {
        Some(FocusIndication::FocusedContinuous)
    } else {
        None
    }
}

impl FocusIndication {
    /// Decode a wire identifier; unknown identifiers map to `None`.
    pub fn from_u8(n: u8) -> (r: Option<FocusIndication>)
        ensures
            r == spec_focus_indication_of_wire(n),
    {
        if n == 0x0001 {
            Some(FocusIndication::AFUnlock)
        } else if n == 0x0002 {
            Some(FocusIndication::AFLock)
        } else if n == 0x0003 {
            Some(FocusIndication::AFWarning)
        } else if n == 0x0005 {
            Some(FocusIndication::Focusing)
        } else if n == 0x0006 {
            Some(FocusIndication::FocusedContinuous)
        } else {
            None
        }
    }

    /// Encode to the wire identifier.
    pub fn to_u8(&self) -> (r: u8)
        ensures
            r == spec_focus_indication_wire(*self),
    {
        match *self {
            FocusIndication::AFUnlock => 0x0001,
            FocusIndication::AFLock => 0x0002,
            FocusIndication::AFWarning => 0x0003,
            FocusIndication::Focusing => 0x0005,
            FocusIndication::FocusedContinuous => 0x0006,
        }
    }
}

/// The mapping between FocusIndication and its wire identifier is lossless:
/// decoding an encoded code yields the code itself.
pub proof fn lemma_focus_indication_wire_lossless(c: FocusIndication)
    ensures
        spec_focus_indication_of_wire(spec_focus_indication_wire(c)) == Some(c),
{
}

/// Still-capture drive modes.
#[derive(Debug, Clone, Copy, PartialEq, Eq, Structural, Hash)]
pub enum DriveMode {
    Normal,
    SelfTimer10,
    SelfTimer2,
    ContinuousShot,
    SpeedPriorityContinuousShot,
}

/// The fixed wire identifier of each DriveMode.
pub open spec fn spec_drive_mode_wire(c: DriveMode) -> u16 {
    match c {
        DriveMode::Normal => 0x0001,
        DriveMode::SelfTimer10 => 0x8004,
        DriveMode::SelfTimer2 => 0x8005,
        DriveMode::ContinuousShot => 0x8013,
        DriveMode::SpeedPriorityContinuousShot => 0x8014,
    }
}

/// The DriveMode that a wire identifier stands for, if any.
pub open spec fn spec_drive_mode_of_wire(n: u16) -> Option<DriveMode> {
    if n == 0x0001 {
        Some(DriveMode::Normal)
    } else if n == 0x8004 {
        Some(DriveMode::SelfTimer10)
    } else if n == 0x8005 {
        Some(DriveMode::SelfTimer2)
    } else if n == 0x8013 {
        Some(DriveMode::ContinuousShot)
    } else if n == 0x8014 {
        Some(DriveMode::SpeedPriorityContinuousShot)
    } else {
        None
    }
}

impl DriveMode {
    /// Decode a wire identifier; unknown identifiers map to `None`.
    pub fn from_u16(n: u16) -> (r: Option<DriveMode>)
        ensures
            r == spec_drive_mode_of_wire(n),
    {
        if n == 0x0001 {
            Some(DriveMode::Normal)
        } else if n == 0x8004 {
            Some(DriveMode::SelfTimer10)
        } else if n == 0x8005 {
            Some(DriveMode::SelfTimer2)
        } else if n == 0x8013 {
            Some(DriveMode::ContinuousShot)
        } else if n == 0x8014 {
            Some(DriveMode::SpeedPriorityContinuousShot)
        } else {
            None
        }
    }

    /// Encode to the wire identifier.
    pub fn to_u16(&self) -> (r: u16)
        ensures
            r == spec_drive_mode_wire(*self),
    {
        match *self {
            DriveMode::Normal => 0x0001,
            DriveMode::SelfTimer10 => 0x8004,
            DriveMode::SelfTimer2 => 0x8005,
            DriveMode::ContinuousShot => 0x8013,
            DriveMode::SpeedPriorityContinuousShot => 0x8014,
        }
    }
}

/// The mapping between DriveMode and its wire identifier is lossless:
/// decoding an encoded code yields the code itself.
pub proof fn lemma_drive_mode_wire_lossless(c: DriveMode)
    ensures
        spec_drive_mode_of_wire(spec_drive_mode_wire(c)) == Some(c),
{
}

/// Zoom modes.
#[derive(Debug, Clone, Copy, PartialEq, Eq, Structural, Hash)]
pub enum ZoomMode {
    Optical,
    OpticalDigital,
}

/// The fixed wire identifier of each ZoomMode.
pub open spec fn spec_zoom_mode_wire(c: ZoomMode) -> u16 {
    match c {
        ZoomMode::Optical => 0x0000,
        ZoomMode::OpticalDigital => 0x0001,
    }
}

/// The ZoomMode that a wire identifier stands for, if any.
pub open spec fn spec_zoom_mode_of_wire(n: u16) -> Option<ZoomMode> {
    if n == 0x0000 {
        Some(ZoomMode::Optical)
    } else if n == 0x0001 {
        Some(ZoomMode::OpticalDigital)
    } else {
        None
    }
}

impl ZoomMode {
    /// Decode a wire identifier; unknown identifiers map to `None`.
    pub fn from_u16(n: u16) -> (r: Option<ZoomMode>)
        ensures
            r == spec_zoom_mode_of_wire(n),
    {
        if n == 0x0000 {
            Some(ZoomMode::Optical)
        } else if n == 0x0001 {
            Some(ZoomMode::OpticalDigital)
        } else {
            None
        }
    }

    /// Encode to the wire identifier.
    pub fn to_u16(&self) -> (r: u16)
        ensures
            r == spec_zoom_mode_wire(*self),
    {
        match *self {
            ZoomMode::Optical => 0x0000,
            ZoomMode::OpticalDigital => 0x0001,
        }
    }
}

/// The mapping between ZoomMode and its wire identifier is lossless:
/// decoding an encoded code yields the code itself.
pub proof fn lemma_zoom_mode_wire_lossless(c: ZoomMode)
    ensures
        spec_zoom_mode_of_wire(spec_zoom_mode_wire(c)) == Some(c),
{
}

/// Image compression modes.
#[derive(Debug, Clone, Copy, PartialEq, Eq, Structural, Hash)]
pub enum CompressionMode {
    Std,
    Fine,
    RawJpeg,
}

/// The fixed wire identifier of each CompressionMode.
pub open spec fn spec_compression_mode_wire(c: CompressionMode) -> u8 {
    match c {
        CompressionMode::Std => 0x0002,
        CompressionMode::Fine => 0x0003,
        CompressionMode::RawJpeg => 0x0013,
    }
}

/// The CompressionMode that a wire identifier stands for, if any.
pub open spec fn spec_compression_mode_of_wire(n: u8) -> Option<CompressionMode> {
    if n == 0x0002 {
        Some(CompressionMode::Std)
    } else if n == 0x0003 {
        Some(CompressionMode::Fine)
    } else if n == 0x0013 {
        Some(CompressionMode::RawJpeg)
    } else {
        None
    }
}

impl CompressionMode {
    /// Decode a wire identifier; unknown identifiers map to `None`.
    pub fn from_u8(n: u8) -> (r: Option<CompressionMode>)
        ensures
            r == spec_compression_mode_of_wire(n),
    {
        if n == 0x0002 {
            Some(CompressionMode::Std)
        } else if n == 0x0003 {
            Some(CompressionMode::Fine)
        } else if n == 0x0013 {
            Some(CompressionMode::RawJpeg)
        } else {
            None
        }
    }

    /// Encode to the wire identifier.
    pub fn to_u8(&self) -> (r: u8)
        ensures
            r == spec_compression_mode_wire(*self),
    {
        match *self {
            CompressionMode::Std => 0x0002,
            CompressionMode::Fine => 0x0003,
            CompressionMode::RawJpeg => 0x0013,
        }
    }
}

/// The mapping between CompressionMode and its wire identifier is lossless:
/// decoding an encoded code yields the code itself.
pub proof fn lemma_compression_mode_wire_lossless(c: CompressionMode)
    ensures
        spec_compression_mode_of_wire(spec_compression_mode_wire(c)) == Some(c),
{
}

/// Save-destination media.
#[derive(Debug, Clone, Copy, PartialEq, Eq, Structural, Hash)]
pub enum SaveMedia {
    HostDevice,
    MemoryCard1,
}

/// The fixed wire identifier of each SaveMedia.
pub open spec fn spec_save_media_wire(c: SaveMedia) -> u16 {
    match c {
        SaveMedia::HostDevice => 0x0001,
        SaveMedia::MemoryCard1 => 0x0002,
    }
}

/// The SaveMedia that a wire identifier stands for, if any.
pub open spec fn spec_save_media_of_wire(n: u16) -> Option<SaveMedia> {
    if n == 0x0001 {
        Some(SaveMedia::HostDevice)
    } else if n == 0x0002 {
        Some(SaveMedia::MemoryCard1)
    } else {
        None
    }
}

impl SaveMedia {
    /// Decode a wire identifier; unknown identifiers map to `None`.
    pub fn from_u16(n: u16) -> (r: Option<SaveMedia>)
        ensures
            r == spec_save_media_of_wire(n),
    {
        if n == 0x0001 {
            Some(SaveMedia::HostDevice)
        } else if n == 0x0002 {
            Some(SaveMedia::MemoryCard1)
        } else {
            None
        }
    }

    /// Encode to the wire identifier.
    pub fn to_u16(&self) -> (r: u16)
        ensures
            r == spec_save_media_wire(*self),
    {
        match *self {
            SaveMedia::HostDevice => 0x0001,
            SaveMedia::MemoryCard1 => 0x0002,
        }
    }
}

/// The mapping between SaveMedia and its wire identifier is lossless:
/// decoding an encoded code yields the code itself.
pub proof fn lemma_save_media_wire_lossless(c: SaveMedia)
    ensures
        spec_save_media_of_wire(spec_save_media_wire(c)) == Some(c),
{
}

/// Device error flags.
#[derive(Debug, Clone, Copy, PartialEq, Eq, Structural, Hash)]
pub enum ErrorMode {
    Fatal,
    RecordingFailed,
    RecordingFailedStorageFull,
    RecordingFailedMediaFull,
    Media,
    UnsupportedMedia,
    IncompatibleMedia,
    NoMedia,
    MediaInRecovery,
    MediaRecoveryFailed,
    Temperature,
    Battery,
    Reserved,
    LensNotRecognized,
    CaptureOnCapturing,
    SettingFailure,
    NoError,
}

/// The fixed wire identifier of each ErrorMode.
pub open spec fn spec_error_mode_wire(c: ErrorMode) -> u16 {
    match c {
        ErrorMode::Fatal => 0x8000,
        ErrorMode::RecordingFailed => 0x4000,
        ErrorMode::RecordingFailedStorageFull => 0x2000,
        ErrorMode::RecordingFailedMediaFull => 0x1000,
        ErrorMode::Media => 0x0800,
        ErrorMode::UnsupportedMedia => 0x0400,
        ErrorMode::IncompatibleMedia => 0x0200,
        ErrorMode::NoMedia => 0x0100,
        ErrorMode::MediaInRecovery => 0x0080,
        ErrorMode::MediaRecoveryFailed => 0x0040,
        ErrorMode::Temperature => 0x0020,
        ErrorMode::Battery => 0x0010,
        ErrorMode::Reserved => 0x0008,
        ErrorMode::LensNotRecognized => 0x0004,
        ErrorMode::CaptureOnCapturing => 0x0002,
        ErrorMode::SettingFailure => 0x0001,
        ErrorMode::NoError => 0x0000,
    }
}

/// The ErrorMode that a wire identifier stands for, if any.
pub open spec fn spec_error_mode_of_wire(n: u16) -> Option<ErrorMode> {
    if n == 0x8000 {
        Some(ErrorMode::Fatal)
    } else if n == 0x4000 {
        Some(ErrorMode::RecordingFailed)
    } else if n == 0x2000 {
        Some(ErrorMode::RecordingFailedStorageFull)
    } else if n == 0x1000 {
        Some(ErrorMode::RecordingFailedMediaFull)
    } else if n == 0x0800 {
        Some(ErrorMode::Media)
    } else if n == 0x0400 {
        Some(ErrorMode::UnsupportedMedia)
    } else if n == 0x0200 {
        Some(ErrorMode::IncompatibleMedia)
    } else if n == 0x0100 {
        Some(ErrorMode::NoMedia)
    } else if n == 0x0080 {
        Some(ErrorMode::MediaInRecovery)
    } else if n == 0x0040 {
        Some(ErrorMode::MediaRecoveryFailed)
    } else if n == 0x0020 {
        Some(ErrorMode::Temperature)
    } else if n == 0x0010 {
        Some(ErrorMode::Battery)
    } else if n == 0x0008 {
        Some(ErrorMode::Reserved)
    } else if n == 0x0004 {
        Some(ErrorMode::LensNotRecognized)
    } else if n == 0x0002 {
        Some(ErrorMode::CaptureOnCapturing)
    } else if n == 0x0001 {
        Some(ErrorMode::SettingFailure)
    } else if n == 0x0000 {
        Some(ErrorMode::NoError)
    } else {
        None
    }
}

impl ErrorMode {
    /// Decode a wire identifier; unknown identifiers map to `None`.
    pub fn from_u16(n: u16) -> (r: Option<ErrorMode>)
        ensures
            r == spec_error_mode_of_wire(n),
    {
        if n == 0x8000 {
            Some(ErrorMode::Fatal)
        } else if n == 0x4000 {
            Some(ErrorMode::RecordingFailed)
        } else if n == 0x2000 {
            Some(ErrorMode::RecordingFailedStorageFull)
        } else if n == 0x1000 {
            Some(ErrorMode::RecordingFailedMediaFull)
        } else if n == 0x0800 {
            Some(ErrorMode::Media)
        } else if n == 0x0400 {
            Some(ErrorMode::UnsupportedMedia)
        } else if n == 0x0200 {
            Some(ErrorMode::IncompatibleMedia)
        } else if n == 0x0100 {
            Some(ErrorMode::NoMedia)
        } else if n == 0x0080 {
            Some(ErrorMode::MediaInRecovery)
        } else if n == 0x0040 {
            Some(ErrorMode::MediaRecoveryFailed)
        } else if n == 0x0020 {
            Some(ErrorMode::Temperature)
        } else if n == 0x0010 {
            Some(ErrorMode::Battery)
        } else if n == 0x0008 {
            Some(ErrorMode::Reserved)
        } else if n == 0x0004 {
            Some(ErrorMode::LensNotRecognized)
        } else if n == 0x0002 {
            Some(ErrorMode::CaptureOnCapturing)
        } else if n == 0x0001 {
            Some(ErrorMode::SettingFailure)
        } else if n == 0x0000 {
            Some(ErrorMode::NoError)
        } else {
            None
        }
    }

    /// Encode to the wire identifier.
    pub fn to_u16(&self) -> (r: u16)
        ensures
            r == spec_error_mode_wire(*self),
    {
        match *self {
            ErrorMode::Fatal => 0x8000,
            ErrorMode::RecordingFailed => 0x4000,
            ErrorMode::RecordingFailedStorageFull => 0x2000,
            ErrorMode::RecordingFailedMediaFull => 0x1000,
            ErrorMode::Media => 0x0800,
            ErrorMode::UnsupportedMedia => 0x0400,
            ErrorMode::IncompatibleMedia => 0x0200,
            ErrorMode::NoMedia => 0x0100,
            ErrorMode::MediaInRecovery => 0x0080,
            ErrorMode::MediaRecoveryFailed => 0x0040,
            ErrorMode::Temperature => 0x0020,
            ErrorMode::Battery => 0x0010,
            ErrorMode::Reserved => 0x0008,
            ErrorMode::LensNotRecognized => 0x0004,
            ErrorMode::CaptureOnCapturing => 0x0002,
            ErrorMode::SettingFailure => 0x0001,
            ErrorMode::NoError => 0x0000,
        }
    }
}

/// The mapping between ErrorMode and its wire identifier is lossless:
/// decoding an encoded code yields the code itself.
pub proof fn lemma_error_mode_wire_lossless(c: ErrorMode)
    ensures
        spec_error_mode_of_wire(spec_error_mode_wire(c)) == Some(c),
{
}
} // verus!
