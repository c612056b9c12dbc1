use plane_system::connect::connect_start;
use plane_system::connect::connect_step;
use plane_system::connect::sdio_connect_params;
use plane_system::connect::ConnectError;
use plane_system::connect::ConnectState;
use plane_system::connect::DeviceEvent;
use plane_system::sdio::decode_ext_device_info;
use plane_system::sdio::DecodeError;
use plane_system::opcodes::ControlCode;
use plane_system::opcodes::PropertyCode;

fn device_info_payload(props: &[u16], controls: &[u16]) -> Vec<u8> {
    let mut b: Vec<u8> = Vec::new();
    b.extend_from_slice(&300u16.to_le_bytes());
    b.extend_from_slice(&(props.len() as u32).to_le_bytes());
    for p in props {
        b.extend_from_slice(&p.to_le_bytes());
    }
    b.extend_from_slice(&(controls.len() as u32).to_le_bytes());
    for c in controls {
        b.extend_from_slice(&c.to_le_bytes());
    }
    b
}

fn decoded_info() -> plane_system::sdio::ExtDeviceInfo {
    // ISO and interval-time properties plus one unknown; two controls
    // plus one unknown.
    let payload = device_info_payload(&[0xD6F2, 0x0001, 0xD631], &[0xD61D, 0x9999, 0xD617]);
    decode_ext_device_info(&payload).unwrap()
}

#[test]
fn device_info_decodes_and_drops_unknown_codes() {
    let info = decoded_info();
    assert_eq!(info.version, 300);
    assert_eq!(info.properties, vec![PropertyCode::ISO, PropertyCode::IntervalTime]);
    assert_eq!(info.controls, vec![ControlCode::S1Button, ControlCode::S2Button]);
    assert!(info.supports_continuous_capture());

    let without_interval = decode_ext_device_info(&device_info_payload(&[0xD6F2], &[])).unwrap();
    assert!(!without_interval.supports_continuous_capture());
}

#[test]
fn device_info_truncated_is_rejected() {
    let payload = device_info_payload(&[0xD6F2, 0xD631], &[0xD61D]);
    assert_eq!(
        decode_ext_device_info(&payload[..payload.len() - 1]),
        Err(DecodeError::Truncated)
    );
    assert_eq!(decode_ext_device_info(&[0x01]), Err(DecodeError::Truncated));
}

#[test]
fn connect_params_carry_the_key_twice() {
    assert_eq!(sdio_connect_params(1), [1, 0xDA01, 0xDA01]);
    assert_eq!(sdio_connect_params(3), [3, 0xDA01, 0xDA01]);
}

/// Run the machine against scripted device-info outcomes, completing
/// every phase command, and report the final state with how many info
/// requests were attempted.
fn drive(mut outcomes: Vec<DeviceEvent>) -> (ConnectState, usize) {
    let mut state = connect_start();
    let mut info_requests: usize = 0;
    let mut steps: usize = 0;
    loop {
        steps += 1;
        assert!(steps < 10000, "the handshake must not hang");
        state = match state {
            ConnectState::SendPhase1 { .. } | ConnectState::SendPhase2 { .. }
            | ConnectState::SendPhase3 { .. } => connect_step(state, DeviceEvent::Completed),
            ConnectState::RequestInfo { .. } => {
                info_requests += 1;
                let outcome = if outcomes.is_empty() {
                    DeviceEvent::Failed
                } else {
                    outcomes.remove(0)
                };
                connect_step(state, outcome)
            }
            done => return (done, info_requests),
        };
    }
}

#[test]
fn auth_failure_at_both_versions_is_unsupported_firmware() {
    // The device rejects authentication at version 100 and again at
    // version 200: the attempt fails as unsupported firmware, without
    // hanging and without retrying past the cap.
    let (state, info_requests) = drive(vec![DeviceEvent::AuthFailed, DeviceEvent::AuthFailed]);
    match state {
        ConnectState::Failed { error } => assert_eq!(error, ConnectError::UnsupportedFirmware),
        _ => panic!("expected failure"),
    }
    assert_eq!(info_requests, 2);
}

#[test]
fn transient_errors_then_success_connects_on_third_attempt() {
    let (state, info_requests) = drive(vec![
        DeviceEvent::Failed,
        DeviceEvent::Failed,
        DeviceEvent::Info(decoded_info()),
    ]);
    match state {
        ConnectState::Connected { info } => assert_eq!(info.version, 300),
        _ => panic!("expected success"),
    }
    assert_eq!(info_requests, 3);
}

#[test]
fn retries_exhaust_into_busy_failure() {
    let (state, info_requests) = drive(Vec::new());
    match state {
        ConnectState::Failed { error } => assert_eq!(error, ConnectError::Busy),
        _ => panic!("expected failure"),
    }
    // The first attempt plus the bounded retries.
    assert_eq!(info_requests, 1001);
}

#[test]
fn malformed_info_fails_the_handshake() {
    let (state, _) = drive(vec![DeviceEvent::Malformed]);
    match state {
        ConnectState::Failed { error } => assert_eq!(error, ConnectError::Malformed),
        _ => panic!("expected failure"),
    }
}

#[test]
fn phase_failures_are_transport_errors() {
    let state = connect_step(connect_start(), DeviceEvent::Failed);
    match state {
        ConnectState::Failed { error } => assert_eq!(error, ConnectError::Transport),
        _ => panic!("expected failure"),
    }
}
