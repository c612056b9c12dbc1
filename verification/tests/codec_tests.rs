use plane_system::codec::Aperture;
use plane_system::codec::Iso;
use plane_system::codec::ShutterSpeed;
use plane_system::modes::DriveMode;
use plane_system::modes::ErrorMode;
use plane_system::modes::ExposureMode;
use plane_system::modes::FocusIndication;
use plane_system::modes::FocusMode;
use plane_system::opcodes::CommandCode;
use plane_system::opcodes::ControlCode;
use plane_system::opcodes::OperatingMode;
use plane_system::opcodes::PropertyCode;

#[test]
fn shutter_speed_fraction_round_trip() {
    let v = ShutterSpeed::Fraction { numerator: 1, denominator: 250 };
    let wire = v.to_u64().unwrap();
    assert_eq!(wire, (1u64 << 16) | 250);
    assert_eq!(ShutterSpeed::from_u64(wire).unwrap(), v);
}

#[test]
fn shutter_speed_bulb_round_trip() {
    let wire = ShutterSpeed::Bulb.to_u64().unwrap();
    assert_eq!(wire, 0xFFFF_FFFE);
    assert_eq!(ShutterSpeed::from_u64(wire).unwrap(), ShutterSpeed::Bulb);
}

#[test]
fn shutter_speed_decode_is_total() {
    // Any wire value decodes, including ones with junk in the high bits.
    assert_eq!(
        ShutterSpeed::from_u64(u64::MAX).unwrap(),
        ShutterSpeed::Fraction { numerator: 0xFFFF, denominator: 0xFFFF }
    );
    assert_eq!(
        ShutterSpeed::from_u64(0).unwrap(),
        ShutterSpeed::Fraction { numerator: 0, denominator: 0 }
    );
    assert_eq!(ShutterSpeed::from_i64(17), None);
    assert_eq!(ShutterSpeed::Bulb.to_i64(), None);
}

#[test]
fn iso_round_trips() {
    assert_eq!(Iso::from_u64(Iso::Auto.to_u64().unwrap()).unwrap(), Iso::Auto);
    assert_eq!(Iso::Auto.to_u64().unwrap(), 0x00FF_FFFF);
    let v = Iso::Value(800);
    assert_eq!(Iso::from_u64(v.to_u64().unwrap()).unwrap(), v);
    // Decode masks unknown high bits rather than failing.
    assert_eq!(Iso::from_u64(0xABCD_0320).unwrap(), Iso::Value(0x0320));
    assert_eq!(Iso::from_i64(100), None);
}

#[test]
fn aperture_round_trips() {
    assert_eq!(Aperture::from_u64(Aperture::Undefined.to_u64().unwrap()).unwrap(), Aperture::Undefined);
    assert_eq!(Aperture::Undefined.to_u64().unwrap(), 0xFFFE);
    let v = Aperture::Value(280);
    assert_eq!(Aperture::from_u64(v.to_u64().unwrap()).unwrap(), v);
    assert_eq!(Aperture::from_u64(0xFFFF_FFFF).unwrap(), Aperture::Value(0xFFFF));
    assert_eq!(Aperture::from_i64(-1), None);
}

#[test]
fn command_codes_map_losslessly() {
    assert_eq!(CommandCode::SdioConnect.to_u16(), 0x96FE);
    assert_eq!(CommandCode::from_u16(0x96FD), Some(CommandCode::SdioGetExtDeviceInfo));
    assert_eq!(CommandCode::from_u16(0x1234), None);
}

#[test]
fn property_codes_map_losslessly() {
    assert_eq!(PropertyCode::ShutterSpeed.to_u16(), 0xD6EA);
    assert_eq!(PropertyCode::from_u16(0xD6F2), Some(PropertyCode::ISO));
    assert_eq!(PropertyCode::from_u16(0xD631), Some(PropertyCode::IntervalTime));
    assert_eq!(PropertyCode::from_u16(0x0000), None);
}

#[test]
fn control_codes_map_losslessly() {
    assert_eq!(ControlCode::S1Button.to_u16(), 0xD61D);
    assert_eq!(ControlCode::from_u16(0xD617), Some(ControlCode::S2Button));
    assert_eq!(ControlCode::from_u16(0xBEEF), None);
}

#[test]
fn operating_modes_map_losslessly() {
    assert_eq!(OperatingMode::Standby.to_u8(), 0x01);
    assert_eq!(OperatingMode::from_u8(0x04), Some(OperatingMode::ContentsTransfer));
    assert_eq!(OperatingMode::from_u8(0x02), Some(OperatingMode::StillRec));
    assert_eq!(OperatingMode::from_u8(0x09), None);
}

#[test]
fn mode_tables_map_losslessly() {
    assert_eq!(ExposureMode::from_u16(0x8000), Some(ExposureMode::IntelligentAuto));
    assert_eq!(ExposureMode::ManualExposure.to_u16(), 0x0001);
    assert_eq!(ExposureMode::from_u16(0x7777), None);
    assert_eq!(FocusMode::from_u16(0x8004), Some(FocusMode::AutoFocusContinuous));
    assert_eq!(FocusIndication::from_u8(0x06), Some(FocusIndication::FocusedContinuous));
    assert_eq!(DriveMode::from_u16(0x8013), Some(DriveMode::ContinuousShot));
    assert_eq!(ErrorMode::from_u16(0x0000), Some(ErrorMode::NoError));
    assert_eq!(ErrorMode::from_u16(0x8000), Some(ErrorMode::Fatal));
    assert_eq!(ErrorMode::from_u16(0x0003), None);
}
