use mavlink::common::MavMessage;
use mavlink::MavHeader;
use plane_system::link::acks_command;
use plane_system::link::acks_param_set;
use plane_system::link::command_ack_succeeded;
use plane_system::link::encode_param_id;
use plane_system::link::is_heartbeat;
use plane_system::link::next_sequence;
use plane_system::link::FrameBuffer;
use plane_system::link::LinkEvent;
use plane_system::link::PollOutcome;

fn heartbeat_frame(sequence: u8) -> Vec<u8> {
    let msg = MavMessage::HEARTBEAT(mavlink::common::HEARTBEAT_DATA::default());
    let header = MavHeader { system_id: 1, component_id: 1, sequence };
    let mut out: Vec<u8> = Vec::new();
    mavlink::write_v1_msg(&mut out, header, &msg).unwrap();
    out
}

#[test]
fn valid_frame_decodes() {
    let mut buf = FrameBuffer::new();
    buf.feed(&heartbeat_frame(0));
    match buf.next_message() {
        PollOutcome::Message { event, .. } => assert_eq!(event, LinkEvent::Heartbeat),
        PollOutcome::NeedData => panic!("expected a message"),
    }
    assert!(matches!(buf.next_message(), PollOutcome::NeedData));
}

#[test]
fn corrupt_middle_frame_keeps_synchronization() {
    // One valid frame, one with a corrupted checksum, one more valid
    // frame: exactly the two valid messages come out, and the corrupt
    // one costs only its magic byte before rescanning.
    let good1 = heartbeat_frame(1);
    let mut corrupt = heartbeat_frame(2);
    let last = corrupt.len() - 1;
    corrupt[last] ^= 0xFF;
    let good2 = heartbeat_frame(3);

    let mut stream: Vec<u8> = Vec::new();
    stream.extend_from_slice(&good1);
    stream.extend_from_slice(&corrupt);
    stream.extend_from_slice(&good2);

    let mut buf = FrameBuffer::new();
    buf.feed(&stream);

    let mut events: Vec<LinkEvent> = Vec::new();
    loop {
        match buf.next_message() {
            PollOutcome::Message { event, .. } => events.push(event),
            PollOutcome::NeedData => break,
        }
    }
    assert_eq!(events, vec![LinkEvent::Heartbeat, LinkEvent::Heartbeat]);
}

#[test]
fn partial_frames_ask_for_more_data() {
    let frame = heartbeat_frame(4);
    let mut buf = FrameBuffer::new();
    // Feed the frame a few bytes at a time; the message only appears
    // once the whole frame is in.
    let mut delivered = false;
    for chunk in frame.chunks(3) {
        buf.feed(chunk);
        match buf.next_message() {
            PollOutcome::Message { event, .. } => {
                assert_eq!(event, LinkEvent::Heartbeat);
                delivered = true;
            }
            PollOutcome::NeedData => {}
        }
    }
    assert!(delivered);
}

#[test]
fn garbage_before_magic_is_tolerated() {
    let mut stream: Vec<u8> = vec![0x00, 0x17, 0x42];
    stream.extend_from_slice(&heartbeat_frame(5));
    let mut buf = FrameBuffer::new();
    buf.feed(&stream);
    assert!(matches!(
        buf.next_message(),
        PollOutcome::Message { event: LinkEvent::Heartbeat, .. }
    ));
}

#[test]
fn param_value_summarized_and_matched() {
    let id = encode_param_id("CAM_DURATION");
    let data = mavlink::common::PARAM_VALUE_DATA {
        param_value: 10.0,
        param_count: 1,
        param_index: 0,
        param_id: id,
        param_type: mavlink::common::MavParamType::MAV_PARAM_TYPE_REAL32,
    };
    let msg = MavMessage::PARAM_VALUE(data);
    let header = MavHeader { system_id: 1, component_id: 1, sequence: 9 };
    let mut out: Vec<u8> = Vec::new();
    mavlink::write_v1_msg(&mut out, header, &msg).unwrap();

    let mut buf = FrameBuffer::new();
    buf.feed(&out);
    let event = match buf.next_message() {
        PollOutcome::Message { event, .. } => event,
        PollOutcome::NeedData => panic!("expected a message"),
    };
    assert!(acks_param_set(&event, &id));
    let other = encode_param_id("CAM_FEEDBACK_PIN");
    assert!(!acks_param_set(&event, &other));
    assert!(!is_heartbeat(&event));
}

#[test]
fn param_id_padding_is_zero_filled() {
    let id = encode_param_id("CAM_DURATION");
    let expect: Vec<char> = "CAM_DURATION\0\0\0\0".chars().collect();
    assert_eq!(id.to_vec(), expect);
}

#[test]
fn command_ack_summarized_and_classified() {
    let data = mavlink::common::COMMAND_ACK_DATA {
        command: mavlink::common::MavCmd::MAV_CMD_DO_DIGICAM_CONTROL,
        result: mavlink::common::MavResult::MAV_RESULT_ACCEPTED,
    };
    let msg = MavMessage::COMMAND_ACK(data);
    let header = MavHeader { system_id: 1, component_id: 1, sequence: 11 };
    let mut out: Vec<u8> = Vec::new();
    mavlink::write_v1_msg(&mut out, header, &msg).unwrap();

    let mut buf = FrameBuffer::new();
    buf.feed(&out);
    let event = match buf.next_message() {
        PollOutcome::Message { event, .. } => event,
        PollOutcome::NeedData => panic!("expected a message"),
    };
    let cmd = mavlink::common::MavCmd::MAV_CMD_DO_DIGICAM_CONTROL as u32;
    assert!(acks_command(&event, cmd));
    match event {
        LinkEvent::CommandAck { result, .. } => {
            assert!(command_ack_succeeded(result));
        }
        _ => panic!("expected a command acknowledgement"),
    }
    assert!(command_ack_succeeded(5));
    assert!(!command_ack_succeeded(4));
    assert!(!command_ack_succeeded(2));
}

#[test]
fn outbound_frames_carry_the_link_header() {
    let msg = MavMessage::HEARTBEAT(mavlink::common::HEARTBEAT_DATA::default());
    let frame = plane_system::link::outbound_frame(42, &msg);
    assert_eq!(frame[0], 0xFE);
    assert_eq!(frame[2], 42);
    assert_eq!(frame[3], 1);
    assert_eq!(frame[4], 1);
    // The framed message survives a round trip through the receive side.
    let mut buf = FrameBuffer::new();
    buf.feed(&frame);
    assert!(matches!(
        buf.next_message(),
        PollOutcome::Message { event: LinkEvent::Heartbeat, .. }
    ));
}

#[test]
fn sequence_numbers_wrap() {
    assert_eq!(next_sequence(0), 1);
    assert_eq!(next_sequence(254), 255);
    assert_eq!(next_sequence(255), 0);
}
