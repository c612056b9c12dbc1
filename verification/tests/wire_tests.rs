use plane_system::commands::capture_confirmation;
use plane_system::commands::capture_sequence;
use plane_system::commands::continuous_capture_control;
use plane_system::commands::power_control;
use plane_system::commands::required_mode;
use plane_system::commands::storage_ready;
use plane_system::commands::validate_capture_interval;
use plane_system::commands::zoom_level_of;
use plane_system::commands::CameraPowerRequest;
use plane_system::commands::CameraRequest;
use plane_system::commands::CameraStorageRequest;
use plane_system::commands::IntervalError;
use plane_system::config::PlaneSystemConfig;
use plane_system::config::ConfigError;
use plane_system::errors::DeviceError;
use plane_system::opcodes::ControlCode;
use plane_system::opcodes::OperatingMode;
use plane_system::opcodes::PropertyCode;
use plane_system::ptp_wire::classify_response;
use plane_system::ptp_wire::collect_container;
use plane_system::ptp_wire::container_payload;
use plane_system::ptp_wire::Collected;
use plane_system::ptp_wire::decode_all_prop_info;
use plane_system::ptp_wire::decode_container_header;
use plane_system::ptp_wire::decode_prop_value;
use plane_system::ptp_wire::encode_command_container;
use plane_system::ptp_wire::encode_prop_value;
use plane_system::ptp_wire::find_property;
use plane_system::ptp_wire::prop_value_of_type;
use plane_system::ptp_wire::prop_values_equal;
use plane_system::ptp_wire::PropValue;
use plane_system::ptp_wire::ResponseClass;
use plane_system::tasks::distance_transition_done;
use plane_system::tasks::grace_adjusted_threshold;
use plane_system::tasks::on_task_exit;
use plane_system::tasks::SupervisorAction;

#[test]
fn command_container_layout_is_exact() {
    let params: Vec<u32> = vec![1, 0xDA01, 0xDA01];
    let bytes = encode_command_container(0x96FE, 7, &params);
    let mut expect: Vec<u8> = Vec::new();
    expect.extend_from_slice(&24u32.to_le_bytes());
    expect.extend_from_slice(&1u16.to_le_bytes());
    expect.extend_from_slice(&0x96FEu16.to_le_bytes());
    expect.extend_from_slice(&7u32.to_le_bytes());
    expect.extend_from_slice(&1u32.to_le_bytes());
    expect.extend_from_slice(&0xDA01u32.to_le_bytes());
    expect.extend_from_slice(&0xDA01u32.to_le_bytes());
    assert_eq!(bytes, expect);

    let header = decode_container_header(&bytes).unwrap();
    assert_eq!(header.total_len, 24);
    assert_eq!(header.container_type, 1);
    assert_eq!(header.code, 0x96FE);
    assert_eq!(header.transaction_id, 7);
    assert!(decode_container_header(&bytes[..11]).is_err());

    // The payload is exactly what follows the twelve header bytes.
    let payload = container_payload(&bytes, &header).unwrap();
    assert_eq!(payload, bytes[12..24].to_vec());
    // A command container is not part of an inbound exchange.
    assert!(matches!(
        collect_container(&header, payload),
        Collected::Unrelated
    ));

    // A response container finishes the exchange with its code.
    let mut response: Vec<u8> = Vec::new();
    response.extend_from_slice(&12u32.to_le_bytes());
    response.extend_from_slice(&3u16.to_le_bytes());
    response.extend_from_slice(&0x2001u16.to_le_bytes());
    response.extend_from_slice(&7u32.to_le_bytes());
    let response_header = decode_container_header(&response).unwrap();
    let response_payload = container_payload(&response, &response_header).unwrap();
    assert!(response_payload.is_empty());
    match collect_container(&response_header, response_payload) {
        Collected::Finished { code } => assert_eq!(code, 0x2001),
        _ => panic!("expected the exchange to finish"),
    }
}

#[test]
fn prop_values_encode_and_decode() {
    let v = PropValue::Uint16(0x1234);
    let bytes = encode_prop_value(&v);
    assert_eq!(bytes, vec![0x34, 0x12]);
    let (back, used) = decode_prop_value(4, &bytes, 0).unwrap();
    assert_eq!(used, 2);
    assert!(prop_values_equal(&back, &v));

    let text = PropValue::Text(vec![0x0041, 0x0042]);
    let bytes = encode_prop_value(&text);
    assert_eq!(bytes, vec![3, 0x41, 0x00, 0x42, 0x00, 0x00, 0x00]);
    let (back, used) = decode_prop_value(0xFFFF, &bytes, 0).unwrap();
    assert_eq!(used, 7);
    assert!(prop_values_equal(&back, &text));
    assert!(!prop_values_equal(&back, &v));

    // An unsupported value kind fails the decode rather than guessing.
    assert!(decode_prop_value(0x4002, &bytes, 0).is_none());
}

#[test]
fn prop_value_of_type_mirrors_the_declared_kind() {
    assert_eq!(prop_value_of_type(2, 0x0104), Some(PropValue::Uint8(0x04)));
    assert_eq!(prop_value_of_type(4, 0x0104), Some(PropValue::Uint16(0x0104)));
    assert_eq!(prop_value_of_type(1, 0xFF), Some(PropValue::Int8(-1)));
    assert_eq!(prop_value_of_type(0xFFFF, 3), None);
}

#[test]
fn property_table_decodes_and_drops_unknown_codes() {
    let mut b: Vec<u8> = vec![3];
    // Operating mode: a known 8-bit property with no form data.
    b.extend_from_slice(&0xD6E2u16.to_le_bytes());
    b.extend_from_slice(&2u16.to_le_bytes());
    b.extend_from_slice(&[1, 1]);
    b.extend_from_slice(&[0x01, 0x04]);
    b.push(0);
    // An unrecognized property code, dropped during decode.
    b.extend_from_slice(&0x9999u16.to_le_bytes());
    b.extend_from_slice(&4u16.to_le_bytes());
    b.extend_from_slice(&[1, 1]);
    b.extend_from_slice(&0u16.to_le_bytes());
    b.extend_from_slice(&7u16.to_le_bytes());
    b.push(0);
    // ISO: 16-bit with an enumeration form of two permitted values.
    b.extend_from_slice(&0xD6F2u16.to_le_bytes());
    b.extend_from_slice(&4u16.to_le_bytes());
    b.extend_from_slice(&[1, 1]);
    b.extend_from_slice(&100u16.to_le_bytes());
    b.extend_from_slice(&200u16.to_le_bytes());
    b.push(2);
    b.extend_from_slice(&2u16.to_le_bytes());
    b.extend_from_slice(&100u16.to_le_bytes());
    b.extend_from_slice(&200u16.to_le_bytes());

    let entries = decode_all_prop_info(&b).unwrap();
    assert_eq!(entries.len(), 2);
    assert_eq!(entries[0].0, PropertyCode::OperatingMode);
    assert!(prop_values_equal(&entries[0].1.current, &PropValue::Uint8(0x04)));
    assert_eq!(entries[1].0, PropertyCode::ISO);
    assert!(prop_values_equal(&entries[1].1.current, &PropValue::Uint16(200)));

    assert_eq!(find_property(&entries, PropertyCode::ISO), Some(1));
    assert_eq!(find_property(&entries, PropertyCode::Zoom), None);

    // Truncating the table fails the decode as a whole.
    assert!(decode_all_prop_info(&b[..b.len() - 1]).is_err());
}

#[test]
fn response_codes_classify_exactly() {
    assert_eq!(classify_response(0x2001), ResponseClass::Completed);
    assert_eq!(classify_response(0xA101), ResponseClass::AuthFailed);
    assert_eq!(classify_response(0x2019), ResponseClass::Other);
}

#[test]
fn request_modes_and_controls_are_fixed() {
    assert_eq!(
        required_mode(&CameraRequest::Storage(CameraStorageRequest::List)),
        Some(OperatingMode::ContentsTransfer)
    );
    assert_eq!(required_mode(&CameraRequest::Capture), Some(OperatingMode::StillRec));
    assert_eq!(required_mode(&CameraRequest::Reset), None);

    let seq = capture_sequence();
    assert_eq!(
        seq,
        vec![
            (ControlCode::S1Button, 2),
            (ControlCode::S2Button, 2),
            (ControlCode::S2Button, 1),
            (ControlCode::S1Button, 1),
        ]
    );

    assert_eq!(continuous_capture_control(true), (ControlCode::IntervalStillRecording, 2));
    assert_eq!(continuous_capture_control(false), (ControlCode::IntervalStillRecording, 1));
    assert_eq!(power_control(&CameraPowerRequest::Up), (ControlCode::PowerOff, 0));
    assert_eq!(power_control(&CameraPowerRequest::Down), (ControlCode::PowerOff, 1));

    let confirm = capture_confirmation();
    assert_eq!(confirm.watch_property, PropertyCode::ShootingFileInfo);
    assert_eq!(confirm.wait_event, 0xC204);
    assert_eq!(confirm.timeout_millis, 3000);
}

#[test]
fn capture_intervals_validate_exactly() {
    assert_eq!(validate_capture_interval(9), Err(IntervalError::TooShort));
    assert_eq!(validate_capture_interval(10), Ok(10));
    assert_eq!(validate_capture_interval(15), Ok(15));
    assert_eq!(validate_capture_interval(17), Err(IntervalError::NotHalfStep));
    assert_eq!(validate_capture_interval(300), Ok(300));
    assert_eq!(validate_capture_interval(301), Err(IntervalError::TooLong));
}

#[test]
fn zoom_level_is_the_low_byte() {
    assert_eq!(zoom_level_of(0x0107), 0x07);
    assert_eq!(zoom_level_of(42), 42);
}

#[test]
fn storage_readiness_checks_ids() {
    assert!(storage_ready(&vec![0x00010001]));
    assert!(!storage_ready(&vec![0x00010000, 0xFFFFFFFF]));
}

#[test]
fn config_parses_or_names_the_missing_key() {
    let text = "pixhawk.address=10.0.0.2:5760\nserver.address=127.0.0.1:8080\n";
    let config = PlaneSystemConfig::read(text).unwrap();
    assert_eq!(config.pixhawk.address, "10.0.0.2:5760");
    assert_eq!(config.server.address, "127.0.0.1:8080");

    let missing_server = PlaneSystemConfig::read("pixhawk.address=10.0.0.2:5760");
    assert_eq!(missing_server, Err(ConfigError::MissingServerAddress));
    let missing_pixhawk = PlaneSystemConfig::read("server.address=127.0.0.1:8080\n");
    assert_eq!(missing_pixhawk, Err(ConfigError::MissingPixhawkAddress));
}

#[test]
fn config_first_binding_wins() {
    let text = "server.address=first\npixhawk.address=p\nserver.address=second";
    let config = PlaneSystemConfig::read(text).unwrap();
    assert_eq!(config.server.address, "first");
}

#[test]
fn supervisor_interrupts_on_failure_only() {
    assert_eq!(on_task_exit(false), SupervisorAction::Continue);
    assert_eq!(
        on_task_exit(true),
        SupervisorAction::InterruptAll { grace_millis: 5000 }
    );
}

#[test]
fn distance_transitions_apply_the_grace_margin() {
    assert_eq!(grace_adjusted_threshold(50, true), 51);
    assert_eq!(grace_adjusted_threshold(50, false), 49);
    assert!(distance_transition_done(true, true));
    assert!(!distance_transition_done(false, true));
    assert!(distance_transition_done(false, false));
}

#[test]
fn device_errors_describe_themselves() {
    assert!(!DeviceError::Transport.describe().is_empty());
    assert!(!DeviceError::RemoteRejection { code: 4 }.describe().is_empty());
}
