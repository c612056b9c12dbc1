//! Opcode tables of the camera's vendor extension: command, property and
//! control identifiers, and the operating modes.
//!
//! Each enum has a total, lossless mapping to and from its fixed-width wire
//! integer.  Unknown wire values decode to `None` rather than failing,
//! since a device may report codes newer than this driver understands.

use vstd::prelude::*;

verus! {

/// Vendor-extension command opcodes.
#[derive(Debug, Clone, Copy, PartialEq, Eq, Structural, Hash)]
pub enum CommandCode {
    SdioConnect,
    SdioGetExtDeviceInfo,
    SdioSetExtDevicePropValue,
    SdioControlDevice,
    SdioGetAllExtDevicePropInfo,
    SdioSendUpdateFile,
    SdioGetExtLensInfo,
    SdioExtDeviceDeleteObject,
}

/// The fixed wire identifier of each CommandCode.
pub open spec fn spec_command_code_wire(c: CommandCode) -> u16 {
    match c {
        CommandCode::SdioConnect => 0x96FE,
        CommandCode::SdioGetExtDeviceInfo => 0x96FD,
        CommandCode::SdioSetExtDevicePropValue => 0x96FA,
        CommandCode::SdioControlDevice => 0x96F8,
        CommandCode::SdioGetAllExtDevicePropInfo => 0x96F6,
        CommandCode::SdioSendUpdateFile => 0x96F5,
        CommandCode::SdioGetExtLensInfo => 0x96F4,
        CommandCode::SdioExtDeviceDeleteObject => 0x96F1,
    }
}

/// The CommandCode that a wire identifier stands for, if any.
pub open spec fn spec_command_code_of_wire(n: u16) -> Option<CommandCode> {
    if n == 0x96FE {
        Some(CommandCode::SdioConnect)
    } else if n == 0x96FD {
        Some(CommandCode::SdioGetExtDeviceInfo)
    } else if n == 0x96FA {
        Some(CommandCode::SdioSetExtDevicePropValue)
    } else if n == 0x96F8 {
        Some(CommandCode::SdioControlDevice)
    } else if n == 0x96F6 {
        Some(CommandCode::SdioGetAllExtDevicePropInfo)
    } else if n == 0x96F5 {
        Some(CommandCode::SdioSendUpdateFile)
    } else if n == 0x96F4 {
        Some(CommandCode::SdioGetExtLensInfo)
    } else if n == 0x96F1 {
        Some(CommandCode::SdioExtDeviceDeleteObject)
    } else {
        None
    }
}

impl CommandCode {
    /// Decode a wire identifier; unknown identifiers map to `None`.
    pub fn from_u16(n: u16) -> (r: Option<CommandCode>)
        ensures
            r == spec_command_code_of_wire(n),
    {
        if n == 0x96FE {
            Some(CommandCode::SdioConnect)
        } else if n == 0x96FD {
            Some(CommandCode::SdioGetExtDeviceInfo)
        } else if n == 0x96FA {
            Some(CommandCode::SdioSetExtDevicePropValue)
        } else if n == 0x96F8 {
            Some(CommandCode::SdioControlDevice)
        } else if n == 0x96F6 {
            Some(CommandCode::SdioGetAllExtDevicePropInfo)
        } else if n == 0x96F5 {
            Some(CommandCode::SdioSendUpdateFile)
        } else if n == 0x96F4 {
            Some(CommandCode::SdioGetExtLensInfo)
        } else if n == 0x96F1 {
            Some(CommandCode::SdioExtDeviceDeleteObject)
        } else {
            None
        }
    }

    /// Encode to the wire identifier.
    pub fn to_u16(&self) -> (r: u16)
        ensures
            r == spec_command_code_wire(*self),
    {
        match *self {
            CommandCode::SdioConnect => 0x96FE,
            CommandCode::SdioGetExtDeviceInfo => 0x96FD,
            CommandCode::SdioSetExtDevicePropValue => 0x96FA,
            CommandCode::SdioControlDevice => 0x96F8,
            CommandCode::SdioGetAllExtDevicePropInfo => 0x96F6,
            CommandCode::SdioSendUpdateFile => 0x96F5,
            CommandCode::SdioGetExtLensInfo => 0x96F4,
            CommandCode::SdioExtDeviceDeleteObject => 0x96F1,
        }
    }
}

/// The mapping between CommandCode and its wire identifier is lossless:
/// decoding an encoded code yields the code itself.
pub proof fn lemma_command_code_wire_lossless(c: CommandCode)
    ensures
        spec_command_code_of_wire(spec_command_code_wire(c)) == Some(c),
{
}

/// Vendor-extension property opcodes.
#[derive(Debug, Clone, Copy, PartialEq, Eq, Structural, Hash)]
pub enum PropertyCode {
    AELock,
    AspectRatio,
    BatteryLevel,
    BatteryRemain,
    BiaxialAB,
    BiaxialGM,
    CaptureCount,
    Caution,
    ColorTemperature,
    Compression,
    DateTime,
    DriveMode,
    ExposureCompensation,
    ExposureMode,
    FNumber,
    FocusIndication,
    FocusMagnificationLevel,
    FocusMagnificationPosition,
    FocusMagnificationState,
    FocusMode,
    ImageSize,
    IntervalStillRecordingState,
    IntervalTime,
    ISO,
    LensStatus,
    LensUpdateState,
    LiveViewResolution,
    LiveViewStatus,
    LocationInfo,
    MediaFormatState,
    MovieFormat,
    MovieQuality,
    MovieRecording,
    MovieSteady,
    NotifyFocus,
    OperatingMode,
    SaveMedia,
    ShootingFileInfo,
    ShutterSpeed,
    StillSteadyMode,
    StorageInfo,
    WhiteBalance,
    WhiteBalanceInit,
    ZoomInfo,
    ZoomMagnificationInfo,
    ZoomAbsolutePosition,
    Zoom,
}

/// The fixed wire identifier of each PropertyCode.
pub open spec fn spec_property_code_wire(c: PropertyCode) -> u16 {
    match c {
        PropertyCode::AELock => 0xD6E8,
        PropertyCode::AspectRatio => 0xD6B3,
        PropertyCode::BatteryLevel => 0xD6F1,
        PropertyCode::BatteryRemain => 0xD6E7,
        PropertyCode::BiaxialAB => 0xD6E3,
        PropertyCode::BiaxialGM => 0xD6EF,
        PropertyCode::CaptureCount => 0xD633,
        PropertyCode::Caution => 0xD6BA,
        PropertyCode::ColorTemperature => 0xD6F0,
        PropertyCode::Compression => 0xD6B9,
        PropertyCode::DateTime => 0xD6B1,
        PropertyCode::DriveMode => 0xD6B0,
        PropertyCode::ExposureCompensation => 0xD6C3,
        PropertyCode::ExposureMode => 0xD6CC,
        PropertyCode::FNumber => 0xD6C5,
        PropertyCode::FocusIndication => 0xD6EC,
        PropertyCode::FocusMagnificationLevel => 0xD6A7,
        PropertyCode::FocusMagnificationPosition => 0xD6A8,
        PropertyCode::FocusMagnificationState => 0xD6A6,
        PropertyCode::FocusMode => 0xD6CB,
        PropertyCode::ImageSize => 0xD6B7,
        PropertyCode::IntervalStillRecordingState => 0xD632,
        PropertyCode::IntervalTime => 0xD631,
        PropertyCode::ISO => 0xD6F2,
        PropertyCode::LensStatus => 0xD6A9,
        PropertyCode::LensUpdateState => 0xD624,
        PropertyCode::LiveViewResolution => 0xD6AA,
        PropertyCode::LiveViewStatus => 0xD6DE,
        PropertyCode::LocationInfo => 0xD6C0,
        PropertyCode::MediaFormatState => 0xD6C7,
        PropertyCode::MovieFormat => 0xD6BD,
        PropertyCode::MovieQuality => 0xD6BC,
        PropertyCode::MovieRecording => 0xD6CD,
        PropertyCode::MovieSteady => 0xD6D1,
        PropertyCode::NotifyFocus => 0xD6AF,
        PropertyCode::OperatingMode => 0xD6E2,
        PropertyCode::SaveMedia => 0xD6CF,
        PropertyCode::ShootingFileInfo => 0xD6C6,
        PropertyCode::ShutterSpeed => 0xD6EA,
        PropertyCode::StillSteadyMode => 0xD6D0,
        PropertyCode::StorageInfo => 0xD6BB,
        PropertyCode::WhiteBalance => 0xD6B8,
        PropertyCode::WhiteBalanceInit => 0xD6DF,
        PropertyCode::ZoomInfo => 0xD6BF,
        PropertyCode::ZoomMagnificationInfo => 0xD63A,
        PropertyCode::ZoomAbsolutePosition => 0xD6BE,
        PropertyCode::Zoom => 0xD6C9,
    }
}

/// The PropertyCode that a wire identifier stands for, if any.
pub open spec fn spec_property_code_of_wire(n: u16) -> Option<PropertyCode> {
    if n == 0xD6E8 {
        Some(PropertyCode::AELock)
    } else if n == 0xD6B3 {
        Some(PropertyCode::AspectRatio)
    } else if n == 0xD6F1 {
        Some(PropertyCode::BatteryLevel)
    } else if n == 0xD6E7 {
        Some(PropertyCode::BatteryRemain)
    } else if n == 0xD6E3 {
        Some(PropertyCode::BiaxialAB)
    } else if n == 0xD6EF {
        Some(PropertyCode::BiaxialGM)
    } else if n == 0xD633 {
        Some(PropertyCode::CaptureCount)
    } else if n == 0xD6BA {
        Some(PropertyCode::Caution)
    } else if n == 0xD6F0 {
        Some(PropertyCode::ColorTemperature)
    } else if n == 0xD6B9 {
        Some(PropertyCode::Compression)
    } else if n == 0xD6B1 {
        Some(PropertyCode::DateTime)
    } else if n == 0xD6B0 {
        Some(PropertyCode::DriveMode)
    } else if n == 0xD6C3 {
        Some(PropertyCode::ExposureCompensation)
    } else if n == 0xD6CC {
        Some(PropertyCode::ExposureMode)
    } else if n == 0xD6C5 {
        Some(PropertyCode::FNumber)
    } else if n == 0xD6EC {
        Some(PropertyCode::FocusIndication)
    } else if n == 0xD6A7 {
        Some(PropertyCode::FocusMagnificationLevel)
    } else if n == 0xD6A8 {
        Some(PropertyCode::FocusMagnificationPosition)
    } else if n == 0xD6A6 {
        Some(PropertyCode::FocusMagnificationState)
    } else if n == 0xD6CB {
        Some(PropertyCode::FocusMode)
    } else if n == 0xD6B7 {
        Some(PropertyCode::ImageSize)
    } else if n == 0xD632 {
        Some(PropertyCode::IntervalStillRecordingState)
    } else if n == 0xD631 {
        Some(PropertyCode::IntervalTime)
    } else if n == 0xD6F2 {
        Some(PropertyCode::ISO)
    } else if n == 0xD6A9 {
        Some(PropertyCode::LensStatus)
    } else if n == 0xD624 {
        Some(PropertyCode::LensUpdateState)
    } else if n == 0xD6AA {
        Some(PropertyCode::LiveViewResolution)
    } else if n == 0xD6DE {
        Some(PropertyCode::LiveViewStatus)
    } else if n == 0xD6C0 {
        Some(PropertyCode::LocationInfo)
    } else if n == 0xD6C7 {
        Some(PropertyCode::MediaFormatState)
    } else if n == 0xD6BD {
        Some(PropertyCode::MovieFormat)
    } else if n == 0xD6BC {
        Some(PropertyCode::MovieQuality)
    } else if n == 0xD6CD {
        Some(PropertyCode::MovieRecording)
    } else if n == 0xD6D1 {
        Some(PropertyCode::MovieSteady)
    } else if n == 0xD6AF {
        Some(PropertyCode::NotifyFocus)
    } else if n == 0xD6E2 {
        Some(PropertyCode::OperatingMode)
    } else if n == 0xD6CF {
        Some(PropertyCode::SaveMedia)
    } else if n == 0xD6C6 {
        Some(PropertyCode::ShootingFileInfo)
    } else if n == 0xD6EA {
        Some(PropertyCode::ShutterSpeed)
    } else if n == 0xD6D0 {
        Some(PropertyCode::StillSteadyMode)
    } else if n == 0xD6BB {
        Some(PropertyCode::StorageInfo)
    } else if n == 0xD6B8 {
        Some(PropertyCode::WhiteBalance)
    } else if n == 0xD6DF {
        Some(PropertyCode::WhiteBalanceInit)
    } else if n == 0xD6BF {
        Some(PropertyCode::ZoomInfo)
    } else if n == 0xD63A {
        Some(PropertyCode::ZoomMagnificationInfo)
    } else if n == 0xD6BE {
        Some(PropertyCode::ZoomAbsolutePosition)
    } else if n == 0xD6C9 {
        Some(PropertyCode::Zoom)
    } else {
        None
    }
}

impl PropertyCode {
    /// Decode a wire identifier; unknown identifiers map to `None`.
    pub fn from_u16(n: u16) -> (r: Option<PropertyCode>)
        ensures
            r == spec_property_code_of_wire(n),
    {
        if n == 0xD6E8 {
            Some(PropertyCode::AELock)
        } else if n == 0xD6B3 {
            Some(PropertyCode::AspectRatio)
        } else if n == 0xD6F1 {
            Some(PropertyCode::BatteryLevel)
        } else if n == 0xD6E7 {
            Some(PropertyCode::BatteryRemain)
        } else if n == 0xD6E3 {
            Some(PropertyCode::BiaxialAB)
        } else if n == 0xD6EF {
            Some(PropertyCode::BiaxialGM)
        } else if n == 0xD633 {
            Some(PropertyCode::CaptureCount)
        } else if n == 0xD6BA {
            Some(PropertyCode::Caution)
        } else if n == 0xD6F0 {
            Some(PropertyCode::ColorTemperature)
        } else if n == 0xD6B9 {
            Some(PropertyCode::Compression)
        } else if n == 0xD6B1 {
            Some(PropertyCode::DateTime)
        } else if n == 0xD6B0 {
            Some(PropertyCode::DriveMode)
        } else if n == 0xD6C3 {
            Some(PropertyCode::ExposureCompensation)
        } else if n == 0xD6CC {
            Some(PropertyCode::ExposureMode)
        } else if n == 0xD6C5 {
            Some(PropertyCode::FNumber)
        } else if n == 0xD6EC {
            Some(PropertyCode::FocusIndication)
        } else if n == 0xD6A7 {
            Some(PropertyCode::FocusMagnificationLevel)
        } else if n == 0xD6A8 {
            Some(PropertyCode::FocusMagnificationPosition)
        } else if n == 0xD6A6 {
            Some(PropertyCode::FocusMagnificationState)
        } else if n == 0xD6CB {
            Some(PropertyCode::FocusMode)
        } else if n == 0xD6B7 {
            Some(PropertyCode::ImageSize)
        } else if n == 0xD632 {
            Some(PropertyCode::IntervalStillRecordingState)
        } else if n == 0xD631 {
            Some(PropertyCode::IntervalTime)
        } else if n == 0xD6F2 {
            Some(PropertyCode::ISO)
        } else if n == 0xD6A9 {
            Some(PropertyCode::LensStatus)
        } else if n == 0xD624 {
            Some(PropertyCode::LensUpdateState)
        } else if n == 0xD6AA {
            Some(PropertyCode::LiveViewResolution)
        } else if n == 0xD6DE {
            Some(PropertyCode::LiveViewStatus)
        } else if n == 0xD6C0 {
            Some(PropertyCode::LocationInfo)
        } else if n == 0xD6C7 {
            Some(PropertyCode::MediaFormatState)
        } else if n == 0xD6BD {
            Some(PropertyCode::MovieFormat)
        } else if n == 0xD6BC {
            Some(PropertyCode::MovieQuality)
        } else if n == 0xD6CD {
            Some(PropertyCode::MovieRecording)
        } else if n == 0xD6D1 {
            Some(PropertyCode::MovieSteady)
        } else if n == 0xD6AF {
            Some(PropertyCode::NotifyFocus)
        } else if n == 0xD6E2 {
            Some(PropertyCode::OperatingMode)
        } else if n == 0xD6CF {
            Some(PropertyCode::SaveMedia)
        } else if n == 0xD6C6 {
            Some(PropertyCode::ShootingFileInfo)
        } else if n == 0xD6EA {
            Some(PropertyCode::ShutterSpeed)
        } else if n == 0xD6D0 {
            Some(PropertyCode::StillSteadyMode)
        } else if n == 0xD6BB {
            Some(PropertyCode::StorageInfo)
        } else if n == 0xD6B8 {
            Some(PropertyCode::WhiteBalance)
        } else if n == 0xD6DF {
            Some(PropertyCode::WhiteBalanceInit)
        } else if n == 0xD6BF {
            Some(PropertyCode::ZoomInfo)
        } else if n == 0xD63A {
            Some(PropertyCode::ZoomMagnificationInfo)
        } else if n == 0xD6BE {
            Some(PropertyCode::ZoomAbsolutePosition)
        } else if n == 0xD6C9 {
            Some(PropertyCode::Zoom)
        } else {
            None
        }
    }

    /// Encode to the wire identifier.
    pub fn to_u16(&self) -> (r: u16)
        ensures
            r == spec_property_code_wire(*self),
    {
        match *self {
            PropertyCode::AELock => 0xD6E8,
            PropertyCode::AspectRatio => 0xD6B3,
            PropertyCode::BatteryLevel => 0xD6F1,
            PropertyCode::BatteryRemain => 0xD6E7,
            PropertyCode::BiaxialAB => 0xD6E3,
            PropertyCode::BiaxialGM => 0xD6EF,
            PropertyCode::CaptureCount => 0xD633,
            PropertyCode::Caution => 0xD6BA,
            PropertyCode::ColorTemperature => 0xD6F0,
            PropertyCode::Compression => 0xD6B9,
            PropertyCode::DateTime => 0xD6B1,
            PropertyCode::DriveMode => 0xD6B0,
            PropertyCode::ExposureCompensation => 0xD6C3,
            PropertyCode::ExposureMode => 0xD6CC,
            PropertyCode::FNumber => 0xD6C5,
            PropertyCode::FocusIndication => 0xD6EC,
            PropertyCode::FocusMagnificationLevel => 0xD6A7,
            PropertyCode::FocusMagnificationPosition => 0xD6A8,
            PropertyCode::FocusMagnificationState => 0xD6A6,
            PropertyCode::FocusMode => 0xD6CB,
            PropertyCode::ImageSize => 0xD6B7,
            PropertyCode::IntervalStillRecordingState => 0xD632,
            PropertyCode::IntervalTime => 0xD631,
            PropertyCode::ISO => 0xD6F2,
            PropertyCode::LensStatus => 0xD6A9,
            PropertyCode::LensUpdateState => 0xD624,
            PropertyCode::LiveViewResolution => 0xD6AA,
            PropertyCode::LiveViewStatus => 0xD6DE,
            PropertyCode::LocationInfo => 0xD6C0,
            PropertyCode::MediaFormatState => 0xD6C7,
            PropertyCode::MovieFormat => 0xD6BD,
            PropertyCode::MovieQuality => 0xD6BC,
            PropertyCode::MovieRecording => 0xD6CD,
            PropertyCode::MovieSteady => 0xD6D1,
            PropertyCode::NotifyFocus => 0xD6AF,
            PropertyCode::OperatingMode => 0xD6E2,
            PropertyCode::SaveMedia => 0xD6CF,
            PropertyCode::ShootingFileInfo => 0xD6C6,
            PropertyCode::ShutterSpeed => 0xD6EA,
            PropertyCode::StillSteadyMode => 0xD6D0,
            PropertyCode::StorageInfo => 0xD6BB,
            PropertyCode::WhiteBalance => 0xD6B8,
            PropertyCode::WhiteBalanceInit => 0xD6DF,
            PropertyCode::ZoomInfo => 0xD6BF,
            PropertyCode::ZoomMagnificationInfo => 0xD63A,
            PropertyCode::ZoomAbsolutePosition => 0xD6BE,
            PropertyCode::Zoom => 0xD6C9,
        }
    }
}

/// The mapping between PropertyCode and its wire identifier is lossless:
/// decoding an encoded code yields the code itself.
pub proof fn lemma_property_code_wire_lossless(c: PropertyCode)
    ensures
        spec_property_code_of_wire(spec_property_code_wire(c)) == Some(c),
{
}

/// Vendor-extension control opcodes.
#[derive(Debug, Clone, Copy, PartialEq, Eq, Structural, Hash)]
pub enum ControlCode {
    AELock,
    AFLock,
    CameraSettingReset,
    ExposureCompensation,
    FNumber,
    FocusFarForContinuous,
    FocusFarForOneShot,
    FocusMagnification,
    FocusNearForContinuous,
    FocusNearForOneShot,
    IntervalStillRecording,
    ISO,
    MediaFormat,
    MovieRecording,
    PowerOff,
    RequestForUpdate,
    RequestForUpdateForLens,
    S1Button,
    S2Button,
    ShutterSpeed,
    SystemInit,
    ZoomControlAbsolute,
    ZoomControlTele,
    ZoomControlTeleOneShot,
    ZoomControlWide,
    ZoomControlWideOneShot,
}

/// The fixed wire identifier of each ControlCode.
pub open spec fn spec_control_code_wire(c: ControlCode) -> u16 {
    match c {
        ControlCode::AELock => 0xD61E,
        ControlCode::AFLock => 0xD63B,
        ControlCode::CameraSettingReset => 0xD6D9,
        ControlCode::ExposureCompensation => 0xD6C3,
        ControlCode::FNumber => 0xD6C5,
        ControlCode::FocusFarForContinuous => 0xD6A4,
        ControlCode::FocusFarForOneShot => 0xD6A2,
        ControlCode::FocusMagnification => 0xD6A5,
        ControlCode::FocusNearForContinuous => 0xD6A3,
        ControlCode::FocusNearForOneShot => 0xD6A1,
        ControlCode::IntervalStillRecording => 0xD630,
        ControlCode::ISO => 0xD6F2,
        ControlCode::MediaFormat => 0xD61C,
        ControlCode::MovieRecording => 0xD60F,
        ControlCode::PowerOff => 0xD637,
        ControlCode::RequestForUpdate => 0xD612,
        ControlCode::RequestForUpdateForLens => 0xD625,
        ControlCode::S1Button => 0xD61D,
        ControlCode::S2Button => 0xD617,
        ControlCode::ShutterSpeed => 0xD6EA,
        ControlCode::SystemInit => 0xD6DA,
        ControlCode::ZoomControlAbsolute => 0xD60E,
        ControlCode::ZoomControlTele => 0xD63C,
        ControlCode::ZoomControlTeleOneShot => 0xD614,
        ControlCode::ZoomControlWide => 0xD63E,
        ControlCode::ZoomControlWideOneShot => 0xD613,
    }
}

/// The ControlCode that a wire identifier stands for, if any.
pub open spec fn spec_control_code_of_wire(n: u16) -> Option<ControlCode> {
    if n == 0xD61E {
        Some(ControlCode::AELock)
    } else if n == 0xD63B {
        Some(ControlCode::AFLock)
    } else if n == 0xD6D9 {
        Some(ControlCode::CameraSettingReset)
    } else if n == 0xD6C3 {
        Some(ControlCode::ExposureCompensation)
    } else if n == 0xD6C5 {
        Some(ControlCode::FNumber)
    } else if n == 0xD6A4 {
        Some(ControlCode::FocusFarForContinuous)
    } else if n == 0xD6A2 {
        Some(ControlCode::FocusFarForOneShot)
    } else if n == 0xD6A5 {
        Some(ControlCode::FocusMagnification)
    } else if n == 0xD6A3 {
        Some(ControlCode::FocusNearForContinuous)
    } else if n == 0xD6A1 {
        Some(ControlCode::FocusNearForOneShot)
    } else if n == 0xD630 {
        Some(ControlCode::IntervalStillRecording)
    } else if n == 0xD6F2 {
        Some(ControlCode::ISO)
    } else if n == 0xD61C {
        Some(ControlCode::MediaFormat)
    } else if n == 0xD60F {
        Some(ControlCode::MovieRecording)
    } else if n == 0xD637 {
        Some(ControlCode::PowerOff)
    } else if n == 0xD612 {
        Some(ControlCode::RequestForUpdate)
    } else if n == 0xD625 {
        Some(ControlCode::RequestForUpdateForLens)
    } else if n == 0xD61D {
        Some(ControlCode::S1Button)
    } else if n == 0xD617 {
        Some(ControlCode::S2Button)
    } else if n == 0xD6EA {
        Some(ControlCode::ShutterSpeed)
    } else if n == 0xD6DA {
        Some(ControlCode::SystemInit)
    } else if n == 0xD60E {
        Some(ControlCode::ZoomControlAbsolute)
    } else if n == 0xD63C {
        Some(ControlCode::ZoomControlTele)
    } else if n == 0xD614 {
        Some(ControlCode::ZoomControlTeleOneShot)
    } else if n == 0xD63E {
        Some(ControlCode::ZoomControlWide)
    } else if n == 0xD613 {
        Some(ControlCode::ZoomControlWideOneShot)
    } else {
        None
    }
}

impl ControlCode {
    /// Decode a wire identifier; unknown identifiers map to `None`.
    pub fn from_u16(n: u16) -> (r: Option<ControlCode>)
        ensures
            r == spec_control_code_of_wire(n),
    {
        if n == 0xD61E {
            Some(ControlCode::AELock)
        } else if n == 0xD63B {
            Some(ControlCode::AFLock)
        } else if n == 0xD6D9 {
            Some(ControlCode::CameraSettingReset)
        } else if n == 0xD6C3 {
            Some(ControlCode::ExposureCompensation)
        } else if n == 0xD6C5 {
            Some(ControlCode::FNumber)
        } else if n == 0xD6A4 {
            Some(ControlCode::FocusFarForContinuous)
        } else if n == 0xD6A2 {
            Some(ControlCode::FocusFarForOneShot)
        } else if n == 0xD6A5 {
            Some(ControlCode::FocusMagnification)
        } else if n == 0xD6A3 {
            Some(ControlCode::FocusNearForContinuous)
        } else if n == 0xD6A1 {
            Some(ControlCode::FocusNearForOneShot)
        } else if n == 0xD630 {
            Some(ControlCode::IntervalStillRecording)
        } else if n == 0xD6F2 {
            Some(ControlCode::ISO)
        } else if n == 0xD61C {
            Some(ControlCode::MediaFormat)
        } else if n == 0xD60F {
            Some(ControlCode::MovieRecording)
        } else if n == 0xD637 {
            Some(ControlCode::PowerOff)
        } else if n == 0xD612 {
            Some(ControlCode::RequestForUpdate)
        } else if n == 0xD625 {
            Some(ControlCode::RequestForUpdateForLens)
        } else if n == 0xD61D {
            Some(ControlCode::S1Button)
        } else if n == 0xD617 {
            Some(ControlCode::S2Button)
        } else if n == 0xD6EA {
            Some(ControlCode::ShutterSpeed)
        } else if n == 0xD6DA {
            Some(ControlCode::SystemInit)
        } else if n == 0xD60E {
            Some(ControlCode::ZoomControlAbsolute)
        } else if n == 0xD63C {
            Some(ControlCode::ZoomControlTele)
        } else if n == 0xD614 {
            Some(ControlCode::ZoomControlTeleOneShot)
        } else if n == 0xD63E {
            Some(ControlCode::ZoomControlWide)
        } else if n == 0xD613 {
            Some(ControlCode::ZoomControlWideOneShot)
        } else {
            None
        }
    }

    /// Encode to the wire identifier.
    pub fn to_u16(&self) -> (r: u16)
        ensures
            r == spec_control_code_wire(*self),
    {
        match *self {
            ControlCode::AELock => 0xD61E,
            ControlCode::AFLock => 0xD63B,
            ControlCode::CameraSettingReset => 0xD6D9,
            ControlCode::ExposureCompensation => 0xD6C3,
            ControlCode::FNumber => 0xD6C5,
            ControlCode::FocusFarForContinuous => 0xD6A4,
            ControlCode::FocusFarForOneShot => 0xD6A2,
            ControlCode::FocusMagnification => 0xD6A5,
            ControlCode::FocusNearForContinuous => 0xD6A3,
            ControlCode::FocusNearForOneShot => 0xD6A1,
            ControlCode::IntervalStillRecording => 0xD630,
            ControlCode::ISO => 0xD6F2,
            ControlCode::MediaFormat => 0xD61C,
            ControlCode::MovieRecording => 0xD60F,
            ControlCode::PowerOff => 0xD637,
            ControlCode::RequestForUpdate => 0xD612,
            ControlCode::RequestForUpdateForLens => 0xD625,
            ControlCode::S1Button => 0xD61D,
            ControlCode::S2Button => 0xD617,
            ControlCode::ShutterSpeed => 0xD6EA,
            ControlCode::SystemInit => 0xD6DA,
            ControlCode::ZoomControlAbsolute => 0xD60E,
            ControlCode::ZoomControlTele => 0xD63C,
            ControlCode::ZoomControlTeleOneShot => 0xD614,
            ControlCode::ZoomControlWide => 0xD63E,
            ControlCode::ZoomControlWideOneShot => 0xD613,
        }
    }
}

/// The mapping between ControlCode and its wire identifier is lossless:
/// decoding an encoded code yields the code itself.
pub proof fn lemma_control_code_wire_lossless(c: ControlCode)
    ensures
        spec_control_code_of_wire(spec_control_code_wire(c)) == Some(c),
{
}

/// Camera operating modes.
#[derive(Debug, Clone, Copy, PartialEq, Eq, Structural, Hash)]
pub enum OperatingMode {
    Standby,
    StillRec,
    MovieRec,
    ContentsTransfer,
}

/// The fixed wire identifier of each OperatingMode.
pub open spec fn spec_operating_mode_wire(c: OperatingMode) -> u8 {
    match c {
        OperatingMode::Standby => 0x0001,
        OperatingMode::StillRec => 0x0002,
        OperatingMode::MovieRec => 0x0003,
        OperatingMode::ContentsTransfer => 0x0004,
    }
}

/// The OperatingMode that a wire identifier stands for, if any.
pub open spec fn spec_operating_mode_of_wire(n: u8) -> Option<OperatingMode> {
    if n == 0x0001 {
        Some(OperatingMode::Standby)
    } else if n == 0x0002 {
        Some(OperatingMode::StillRec)
    } else if n == 0x0003 {
        Some(OperatingMode::MovieRec)
    } else if n == 0x0004 {
        Some(OperatingMode::ContentsTransfer)
    } else {
        None
    }
}

impl OperatingMode {
    /// Decode a wire identifier; unknown identifiers map to `None`.
    pub fn from_u8(n: u8) -> (r: Option<OperatingMode>)
        ensures
            r == spec_operating_mode_of_wire(n),
    {
        if n == 0x0001 {
            Some(OperatingMode::Standby)
        } else if n == 0x0002 {
            Some(OperatingMode::StillRec)
        } else if n == 0x0003 {
            Some(OperatingMode::MovieRec)
        } else if n == 0x0004 {
            Some(OperatingMode::ContentsTransfer)
        } else {
            None
        }
    }

    /// Encode to the wire identifier.
    pub fn to_u8(&self) -> (r: u8)
        ensures
            r == spec_operating_mode_wire(*self),
    {
        match *self {
            OperatingMode::Standby => 0x0001,
            OperatingMode::StillRec => 0x0002,
            OperatingMode::MovieRec => 0x0003,
            OperatingMode::ContentsTransfer => 0x0004,
        }
    }
}

/// The mapping between OperatingMode and its wire identifier is lossless:
/// decoding an encoded code yields the code itself.
pub proof fn lemma_operating_mode_wire_lossless(c: OperatingMode)
    ensures
        spec_operating_mode_of_wire(spec_operating_mode_wire(c)) == Some(c),
{
}
} // verus!
