use pulurobot::codec::{encode, InboundFrame, OutboundCommand};
use pulurobot::commands::{goto_point, handle_goto_location, save_location};
use pulurobot::config::{Config, ConfigHandler};
use pulurobot::error::{ConfigErrorType, RobotErrorType};
use pulurobot::listener::{listen_script, Listener};
use pulurobot::session::{first_position, position_of, RobotLocation, Session};

fn frame_bytes(opcode: u8, payload: &[u8]) -> Vec<u8> {
    let mut out = vec![opcode, (payload.len() >> 8) as u8, (payload.len() & 0xFF) as u8];
    out.extend_from_slice(payload);
    out
}

#[test]
fn double_disconnect_stays_disconnected() {
    let mut session = Session::connect_outcome(true).unwrap();
    assert!(session.is_connected());
    session.disconnect();
    assert!(!session.is_connected());
    session.disconnect();
    assert!(!session.is_connected());
}

#[test]
fn failed_connect_is_a_connection_error() {
    let err = Session::connect_outcome(false).unwrap_err();
    assert_eq!(err.err_type, RobotErrorType::Connection);
}

#[test]
fn send_command_on_dead_session_is_a_write_error() {
    let mut session = Session::connect_outcome(true).unwrap();
    session.disconnect();
    let err = session.send_command(&OutboundCommand::Free).unwrap_err();
    assert_eq!(err.err_type, RobotErrorType::Write);
}

#[test]
fn send_command_yields_the_frame_bytes() {
    let session = Session::connect_outcome(true).unwrap();
    let bytes = session.send_command(&OutboundCommand::Stop).unwrap();
    assert_eq!(bytes, vec![58, 0, 1, 8]);
}

#[test]
fn failed_write_kills_the_session() {
    let mut session = Session::connect_outcome(true).unwrap();
    let err = session.write_outcome(false).unwrap_err();
    assert_eq!(err.err_type, RobotErrorType::Write);
    assert!(!session.is_connected());
}

#[test]
fn successful_write_keeps_the_session() {
    let mut session = Session::connect_outcome(true).unwrap();
    assert!(session.write_outcome(true).is_ok());
    assert!(session.is_connected());
}

#[test]
fn failed_read_kills_the_session() {
    let mut session = Session::connect_outcome(true).unwrap();
    let err = session.read_failed();
    assert_eq!(err.err_type, RobotErrorType::Read);
    assert!(!session.is_connected());
}

#[test]
fn position_of_keeps_only_position_frames() {
    let pos = InboundFrame::Position { angle: 7, x: 3, y: -4 };
    assert_eq!(position_of(&pos), Some(RobotLocation { x: 3, y: -4 }));
    let state = InboundFrame::StateCode { raw: 1 };
    assert_eq!(position_of(&state), None);
}

#[test]
fn first_position_discards_everything_before_it() {
    let frames = vec![
        InboundFrame::StateCode { raw: 1 },
        InboundFrame::BatteryStatus { charging: false, finished: false, voltage: 0, percentage: 9 },
        InboundFrame::Position { angle: 0, x: 11, y: -22 },
        InboundFrame::Position { angle: 0, x: 99, y: 99 },
    ];
    assert_eq!(first_position(&frames), Some(RobotLocation { x: 11, y: -22 }));
    assert_eq!(first_position(&Vec::new()), None);
}

#[test]
fn listener_delivers_frames_in_wire_order() {
    let mut stream = frame_bytes(139, &[2]);
    stream.extend(frame_bytes(134, &[3, 0x01, 0xF4, 50]));
    stream.extend(frame_bytes(200, &[7, 8]));
    let frames = listen_script(&stream, None);
    assert_eq!(
        frames,
        vec![
            InboundFrame::StateCode { raw: 2 },
            InboundFrame::BatteryStatus {
                charging: true,
                finished: true,
                voltage: 256,
                percentage: 50,
            },
            InboundFrame::Unknown { opcode: 200, payload: vec![7, 8] },
        ]
    );
}

#[test]
fn cancel_mid_frame_still_delivers_that_frame() {
    let mut stream = frame_bytes(139, &[1]);
    stream.extend(frame_bytes(139, &[2]));
    stream.extend(frame_bytes(139, &[3]));
    // the cancel arrives while the second frame is being read: the
    // check runs once per frame, so the second is still delivered
    let frames = listen_script(&stream, Some(1));
    assert_eq!(
        frames,
        vec![InboundFrame::StateCode { raw: 1 }, InboundFrame::StateCode { raw: 2 }]
    );
}

#[test]
fn empty_stream_delivers_nothing() {
    assert_eq!(listen_script(&Vec::new(), None), Vec::new());
    assert_eq!(listen_script(&vec![130, 0], None), Vec::new());
}

#[test]
fn zero_length_payload_frame_decodes_as_unknown() {
    let stream = frame_bytes(200, &[]);
    assert_eq!(
        listen_script(&stream, None),
        vec![InboundFrame::Unknown { opcode: 200, payload: Vec::new() }]
    );
}

#[test]
fn trailing_partial_frame_is_never_delivered() {
    let mut stream = frame_bytes(139, &[5]);
    stream.extend([130, 0, 10, 1, 2, 3]); // header promises 10 bytes, only 3 follow
    let frames = listen_script(&stream, None);
    assert_eq!(frames, vec![InboundFrame::StateCode { raw: 5 }]);
}

#[test]
fn listener_state_machine_cancel_and_shutdown() {
    let session = Session::connect_outcome(true).unwrap();
    let mut listener = Listener::start(session);
    assert!(!listener.should_stop());
    listener.cancel();
    assert!(listener.should_stop());
    let session = listener.shutdown();
    assert!(!session.is_connected());
}

#[test]
fn listener_read_failure_disconnects() {
    let session = Session::connect_outcome(true).unwrap();
    let mut listener = Listener::start(session);
    let err = listener.read_failed();
    assert_eq!(err.err_type, RobotErrorType::Read);
    let session = listener.shutdown();
    assert!(!session.is_connected());
}

#[test]
fn set_point_then_get_point_round_trip() {
    let mut config = <Config as ConfigHandler>::new();
    config.set_point("a", 5, -6).unwrap();
    config.set_point("b", 7, 8).unwrap();
    assert_eq!(config.get_point("a").unwrap(), (5, -6));
    assert_eq!(config.get_point("b").unwrap(), (7, 8));
}

#[test]
fn unknown_point_name_is_ignored_on_set_and_fails_on_get() {
    let mut config = <Config as ConfigHandler>::new();
    assert!(config.set_point("c", 1, 2).is_ok());
    assert_eq!(config.get_point("a").unwrap(), (0, 0));
    let err = config.get_point("c").unwrap_err();
    assert_eq!(err.err_type, ConfigErrorType::Read);
}

#[test]
fn goto_location_builds_the_goto_frame() {
    let mut config = <Config as ConfigHandler>::new();
    config.set_point("a", 220, -509).unwrap();
    let bytes = handle_goto_location("a", &mut config).unwrap();
    assert_eq!(bytes, encode(&OutboundCommand::GotoXY { x: 220, y: -509 }));
    assert_eq!(handle_goto_location("nowhere", &mut config), None);
}

#[test]
fn goto_point_reports_each_failure_kind() {
    let mut config = <Config as ConfigHandler>::new();
    config.set_point("b", -1, 2).unwrap();

    let live = Session::connect_outcome(true).unwrap();
    let bytes = goto_point(&live, &mut config, "b").unwrap();
    assert_eq!(bytes, encode(&OutboundCommand::GotoXY { x: -1, y: 2 }));

    let err = goto_point(&live, &mut config, "c").unwrap_err();
    assert_eq!(err.err_type, RobotErrorType::Read);

    let mut dead = Session::connect_outcome(true).unwrap();
    dead.disconnect();
    let err = goto_point(&dead, &mut config, "b").unwrap_err();
    assert_eq!(err.err_type, RobotErrorType::Write);
}

#[test]
fn save_location_updates_the_named_point() {
    let mut config = <Config as ConfigHandler>::new();
    save_location(&mut config, "a", RobotLocation { x: 41, y: 42 }).unwrap();
    assert_eq!(config.get_point("a").unwrap(), (41, 42));
    assert_eq!(config.get_point("b").unwrap(), (0, 0));
    // unknown names are ignored, successfully
    save_location(&mut config, "z", RobotLocation { x: 1, y: 1 }).unwrap();
    assert!(config.get_point("z").is_err());
}
