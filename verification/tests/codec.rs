use pulurobot::codec::{
    decode_header, decode_payload, encode, encode_position_payload, InboundFrame, OutboundCommand,
    RobotState,
};
use pulurobot::error::RobotErrorType;

#[test]
fn encode_free_fixed_vector() {
    assert_eq!(encode(&OutboundCommand::Free), vec![58, 0, 1, 5]);
}

#[test]
fn encode_stop_fixed_vector() {
    assert_eq!(encode(&OutboundCommand::Stop), vec![58, 0, 1, 8]);
}

#[test]
fn encode_localize_fixed_vector() {
    assert_eq!(encode(&OutboundCommand::Localize), vec![58, 0, 1, 3]);
}

#[test]
fn encode_goto_fixed_vector() {
    let bytes = encode(&OutboundCommand::GotoXY { x: 220, y: -509 });
    assert_eq!(
        bytes,
        vec![56, 0, 9, 0, 0, 0, 220, 0xFF, 0xFF, 0xFE, 3, 0]
    );
}

#[test]
fn position_round_trip_samples() {
    let samples = [
        (0i32, 0i32),
        (220, -509),
        (i32::MAX, i32::MIN),
        (i32::MIN, i32::MAX),
        (-1, 1),
        (123456789, -987654321),
    ];
    for &(x, y) in samples.iter() {
        let payload = encode_position_payload(x, y);
        match decode_payload(130, payload) {
            InboundFrame::Position { angle, x: dx, y: dy } => {
                assert_eq!(angle, 0);
                assert_eq!(dx, x);
                assert_eq!(dy, y);
            }
            other => panic!("expected a position frame, got {:?}", other),
        }
    }
}

#[test]
fn position_decode_exact_fields() {
    // angle 0x8000 is -32768; x bytes spell 220; y bytes spell -509
    let payload = vec![0x80, 0x00, 0, 0, 0, 220, 0xFF, 0xFF, 0xFE, 3];
    assert_eq!(
        decode_payload(130, payload),
        InboundFrame::Position { angle: -32768, x: 220, y: -509 }
    );
}

#[test]
fn header_decode_recovers_length() {
    for length in [0u16, 1, 255, 256, 0x1234, 65535] {
        let header = vec![130, (length >> 8) as u8, (length & 0xFF) as u8];
        let (opcode, decoded) = decode_header(&header).unwrap();
        assert_eq!(opcode, 130);
        assert_eq!(decoded, length);
    }
}

#[test]
fn header_shorter_than_three_bytes_is_malformed() {
    let err = decode_header(&vec![130, 0]).unwrap_err();
    assert_eq!(err.err_type, RobotErrorType::MalformedHeader);
}

#[test]
fn unknown_opcode_passes_payload_through() {
    assert_eq!(
        decode_payload(200, vec![1, 2, 3]),
        InboundFrame::Unknown { opcode: 200, payload: vec![1, 2, 3] }
    );
}

#[test]
fn short_position_payload_is_unknown_not_error() {
    assert_eq!(
        decode_payload(130, vec![9, 9]),
        InboundFrame::Unknown { opcode: 130, payload: vec![9, 9] }
    );
}

#[test]
fn battery_arithmetic_regression() {
    // charging and finished bits set, voltage bytes 0x01 0xF4, 50 percent
    assert_eq!(
        decode_payload(134, vec![3, 0x01, 0xF4, 50]),
        InboundFrame::BatteryStatus {
            charging: true,
            finished: true,
            voltage: 256,
            percentage: 50,
        }
    );
}

#[test]
fn battery_flags_clear() {
    assert_eq!(
        decode_payload(134, vec![0, 0xFF, 0, 0]),
        InboundFrame::BatteryStatus {
            charging: false,
            finished: false,
            voltage: 0xFF00,
            percentage: 0,
        }
    );
}

#[test]
fn state_frame_keeps_raw_code() {
    assert_eq!(decode_payload(139, vec![6]), InboundFrame::StateCode { raw: 6 });
}

#[test]
fn geometry_frame_decodes_four_signed_fields() {
    let payload = vec![0x01, 0x2C, 0xFF, 0xFF, 0x00, 0x00, 0x80, 0x00];
    assert_eq!(
        decode_payload(140, payload),
        InboundFrame::GeometryInfo { xs: 300, ys: -1, xoffs: 0, yoffs: -32768 }
    );
}

#[test]
fn state_codes_map_to_names() {
    assert_eq!(RobotState::from_code(-1), Some(RobotState::Undef));
    assert_eq!(RobotState::from_code(0), Some(RobotState::Idle));
    assert_eq!(RobotState::from_code(1), Some(RobotState::Think));
    assert_eq!(RobotState::from_code(2), Some(RobotState::Fwd));
    assert_eq!(RobotState::from_code(3), Some(RobotState::Rev));
    assert_eq!(RobotState::from_code(4), Some(RobotState::Left));
    assert_eq!(RobotState::from_code(5), Some(RobotState::Right));
    assert_eq!(RobotState::from_code(6), Some(RobotState::Charging));
    assert_eq!(RobotState::from_code(7), Some(RobotState::Daijuing));
    assert_eq!(RobotState::from_code(8), None);
    assert_eq!(RobotState::from_code(-2), None);
}
