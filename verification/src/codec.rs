//! Pure frame codec: typed commands and telemetry to and from wire bytes.
//!
//! Every frame on the wire is a three-byte header — opcode, then a
//! big-endian 16-bit payload length — followed by exactly that many
//! payload bytes. Encoding never fails; decoding never fails either:
//! an unrecognized opcode, or a recognized one with a payload below its
//! floor length, comes back as an `Unknown` frame so that a listen loop
//! stays resilient to protocol variants it does not understand.

use vstd::prelude::*;

use crate::error::{RobotError, RobotErrorType};
use crate::wire::{be_i16, be_i32, be_u16, i32_be_bytes, lemma_i32_round_trip, push_i32_be,
    read_be_i16, read_be_i32, u16_from_be};

verus! {

/// Opcode of an inbound position frame.
pub const POSITION_OPCODE: u8 = 130;

/// Opcode of an inbound battery status frame.
pub const BATTERY_OPCODE: u8 = 134;

/// Opcode of an inbound state code frame.
pub const STATE_OPCODE: u8 = 139;

/// Opcode of an inbound geometry frame.
pub const GEOMETRY_OPCODE: u8 = 140;

/// A command sent to the robot, immutable once constructed.
#[derive(Clone, Copy, Debug, PartialEq, Eq, Structural)]
pub enum OutboundCommand {
    /// Unlock the wheels so the robot can be moved by hand.
    Free,
    /// Ask the robot to localize itself.
    Localize,
    /// Stop whatever is in progress.
    Stop,
    /// Route to the given coordinates.
    GotoXY { x: i32, y: i32 },
}

/// The exact bytes of a command frame: header plus fixed payload.
pub open spec fn spec_encode(cmd: OutboundCommand) -> Seq<u8> {
    match cmd {
        OutboundCommand::Free => seq![58u8, 0u8, 1u8, 5u8],
        OutboundCommand::Localize => seq![58u8, 0u8, 1u8, 3u8],
        OutboundCommand::Stop => seq![58u8, 0u8, 1u8, 8u8],
        OutboundCommand::GotoXY { x, y } => seq![56u8, 0u8, 9u8] + i32_be_bytes(x)
            + i32_be_bytes(y) + seq![0u8],
    }
}

/// Encodes a command as a complete wire frame. Never fails: every
/// command has a fixed layout.
pub fn encode(cmd: &OutboundCommand) -> (r: Vec<u8>)
    ensures
        r@ == spec_encode(*cmd),
{
    let mut out: Vec<u8> = Vec::new();
    match cmd {
        OutboundCommand::Free => {
            out.push(58);
            out.push(0);
            out.push(1);
            out.push(5);
        },
        OutboundCommand::Localize => {
            out.push(58);
            out.push(0);
            out.push(1);
            out.push(3);
        },
        OutboundCommand::Stop => {
            out.push(58);
            out.push(0);
            out.push(1);
            out.push(8);
        },
        OutboundCommand::GotoXY { x, y } => {
            out.push(56);
            out.push(0);
            out.push(9);
            push_i32_be(&mut out, *x);
            push_i32_be(&mut out, *y);
            out.push(0);
        },
    }
    assert(out@ =~= spec_encode(*cmd));
    out
}

/// Mathematical value of a decoded telemetry frame.
pub enum FrameView {
    Position { angle: int, x: int, y: int },
    BatteryStatus { charging: bool, finished: bool, voltage: int, percentage: u8 },
    StateCode { raw: u8 },
    GeometryInfo { xs: int, ys: int, xoffs: int, yoffs: int },
    Unknown { opcode: u8, payload: Seq<u8> },
}

/// A telemetry frame decoded from the wire; read-only and transient.
#[derive(Clone, Debug, PartialEq, Eq)]
pub enum InboundFrame {
    /// Raw rotation together with a position, opcode 130. The angle is
    /// kept raw; degrees are a presentation concern of the caller.
    Position { angle: i16, x: i32, y: i32 },
    /// Battery telemetry, opcode 134.
    BatteryStatus { charging: bool, finished: bool, voltage: i32, percentage: u8 },
    /// An opaque state code, opcode 139; the caller may name it via
    /// [`RobotState::from_code`].
    StateCode { raw: u8 },
    /// Four signed 16-bit geometry fields, opcode 140.
    GeometryInfo { xs: i16, ys: i16, xoffs: i16, yoffs: i16 },
    /// Any other opcode, or a recognized opcode whose payload is below
    /// its floor length: the payload passed through untouched.
    Unknown { opcode: u8, payload: Vec<u8> },
}

impl View for InboundFrame {
    type V = FrameView;

    open spec fn view(&self) -> FrameView {
        match self {
            InboundFrame::Position { angle, x, y } => FrameView::Position {
                angle: *angle as int,
                x: *x as int,
                y: *y as int,
            },
            InboundFrame::BatteryStatus { charging, finished, voltage, percentage } =>
                FrameView::BatteryStatus {
                    charging: *charging,
                    finished: *finished,
                    voltage: *voltage as int,
                    percentage: *percentage,
                },
            InboundFrame::StateCode { raw } => FrameView::StateCode { raw: *raw },
            InboundFrame::GeometryInfo { xs, ys, xoffs, yoffs } => FrameView::GeometryInfo {
                xs: *xs as int,
                ys: *ys as int,
                xoffs: *xoffs as int,
                yoffs: *yoffs as int,
            },
            InboundFrame::Unknown { opcode, payload } => FrameView::Unknown {
                opcode: *opcode,
                payload: payload@,
            },
        }
    }
}

/// The battery voltage field exactly as the protocol's historical
/// formula computes it: the high byte shifted left by eight bits,
/// joined with the low byte divided by 1000. The division leaves zero
/// for every possible byte, which looks like a unit confusion, but the
/// formula is kept verbatim for wire compatibility.
pub open spec fn battery_voltage(hi: u8, lo: u8) -> int {
    hi * 0x100 + (lo as int) / 1000
}

/// What any opcode and payload decode to. Dispatch on the opcode; a
/// payload below the opcode's floor length, or an unrecognized opcode,
/// passes through as `Unknown`.
pub open spec fn spec_decode_payload(opcode: u8, payload: Seq<u8>) -> FrameView {
    if opcode == POSITION_OPCODE && payload.len() >= 10 {
        FrameView::Position {
            angle: be_i16(payload[0], payload[1]),
            x: be_i32(payload[2], payload[3], payload[4], payload[5]),
            y: be_i32(payload[6], payload[7], payload[8], payload[9]),
        }
    } else if opcode == BATTERY_OPCODE && payload.len() >= 4 {
        FrameView::BatteryStatus {
            charging: payload[0] & 1 != 0,
            finished: payload[0] & 2 != 0,
            voltage: battery_voltage(payload[1], payload[2]),
            percentage: payload[3],
        }
    } else if opcode == STATE_OPCODE && payload.len() >= 1 {
        FrameView::StateCode { raw: payload[0] }
    } else if opcode == GEOMETRY_OPCODE && payload.len() >= 8 {
        FrameView::GeometryInfo {
            xs: be_i16(payload[0], payload[1]),
            ys: be_i16(payload[2], payload[3]),
            xoffs: be_i16(payload[4], payload[5]),
            yoffs: be_i16(payload[6], payload[7]),
        }
    } else {
        FrameView::Unknown { opcode, payload }
    }
}

/// Decodes a payload under its opcode into a typed frame. Never fails:
/// whatever cannot be interpreted is handed back as `Unknown`.
pub fn decode_payload(opcode: u8, payload: Vec<u8>) -> (frame: InboundFrame)
    ensures
        frame@ == spec_decode_payload(opcode, payload@),
{
    if opcode == POSITION_OPCODE && payload.len() >= 10 {
        let angle = read_be_i16(&payload, 0);
        let x = read_be_i32(&payload, 2);
        let y = read_be_i32(&payload, 6);
        InboundFrame::Position { angle, x, y }
    } else if opcode == BATTERY_OPCODE && payload.len() >= 4 {
        let flags = payload[0];
        let hi = payload[1];
        let lo = payload[2];
        assert((((hi as u32) << 8) | ((lo as u32) / 1000)) == battery_voltage(hi, lo)
            && (((hi as u32) << 8) | ((lo as u32) / 1000)) < 0x10000) by (bit_vector);
        let wide: u32 = ((hi as u32) << 8) | ((lo as u32) / 1000);
        InboundFrame::BatteryStatus {
            charging: flags & 1 != 0,
            finished: flags & 2 != 0,
            voltage: wide as i32,
            percentage: payload[3],
        }
    } else if opcode == STATE_OPCODE && payload.len() >= 1 {
        InboundFrame::StateCode { raw: payload[0] }
    } else if opcode == GEOMETRY_OPCODE && payload.len() >= 8 {
        let xs = read_be_i16(&payload, 0);
        let ys = read_be_i16(&payload, 2);
        let xoffs = read_be_i16(&payload, 4);
        let yoffs = read_be_i16(&payload, 6);
        InboundFrame::GeometryInfo { xs, ys, xoffs, yoffs }
    } else {
        InboundFrame::Unknown { opcode, payload }
    }
}

/// Splits a three-byte header into its opcode and payload length. Fails
/// with `MalformedHeader` exactly when fewer than three bytes are
/// supplied; supplying exactly three is the caller's responsibility.
pub fn decode_header(header: &Vec<u8>) -> (r: Result<(u8, u16), RobotError>)
    ensures
        header@.len() >= 3 ==> (r matches Ok(h) && h.0 == header@[0] && h.1 as int == be_u16(
            header@[1],
            header@[2],
        )),
        header@.len() < 3 ==> (r matches Err(e) && e.err_type == RobotErrorType::MalformedHeader),
{
    if header.len() < 3 {
        Err(RobotError { err_type: RobotErrorType::MalformedHeader })
    } else {
        Ok((header[0], u16_from_be(header[1], header[2])))
    }
}

/// The payload of a position frame carrying the given coordinates,
/// with a zero angle field.
pub open spec fn spec_position_payload(x: i32, y: i32) -> Seq<u8> {
    seq![0u8, 0u8] + i32_be_bytes(x) + i32_be_bytes(y)
}

/// Builds a position payload for the given coordinates, angle zero.
pub fn encode_position_payload(x: i32, y: i32) -> (r: Vec<u8>)
    ensures
        r@ == spec_position_payload(x, y),
{
    let mut out: Vec<u8> = Vec::new();
    out.push(0);
    out.push(0);
    push_i32_be(&mut out, x);
    push_i32_be(&mut out, y);
    assert(out@ =~= spec_position_payload(x, y));
    out
}

/// Round trip: a position payload built from any coordinate pair
/// decodes, under the position opcode, back to exactly that pair.
pub proof fn lemma_position_round_trip(x: i32, y: i32)
    ensures
        spec_decode_payload(POSITION_OPCODE, spec_position_payload(x, y)) == (FrameView::Position {
            angle: 0int,
            x: x as int,
            y: y as int,
        }),
{
    let p = spec_position_payload(x, y);
    assert(p.len() == 10);
    assert(p[0] == 0u8 && p[1] == 0u8);
    assert(p[2] == i32_be_bytes(x)[0] && p[3] == i32_be_bytes(x)[1] && p[4] == i32_be_bytes(x)[2]
        && p[5] == i32_be_bytes(x)[3]);
    assert(p[6] == i32_be_bytes(y)[0] && p[7] == i32_be_bytes(y)[1] && p[8] == i32_be_bytes(y)[2]
        && p[9] == i32_be_bytes(y)[3]);
    lemma_i32_round_trip(x);
    lemma_i32_round_trip(y);
}

/// Named robot states. The decoder keeps state codes raw; naming them
/// is a presentation concern, so this mapping is offered to callers
/// as a helper only.
#[derive(Clone, Copy, Debug, PartialEq, Eq, Structural)]
pub enum RobotState {
    Undef,
    Idle,
    Think,
    Fwd,
    Rev,
    Left,
    Right,
    Charging,
    Daijuing,
}

/// The named state for each documented raw code; codes outside
/// `-1..=7` have no name.
pub open spec fn spec_state_of_code(code: i8) -> Option<RobotState> {
    if code == -1 {
        Some(RobotState::Undef)
    } else if code == 0 {
        Some(RobotState::Idle)
    } else if code == 1 {
        Some(RobotState::Think)
    } else if code == 2 {
        Some(RobotState::Fwd)
    } else if code == 3 {
        Some(RobotState::Rev)
    } else if code == 4 {
        Some(RobotState::Left)
    } else if code == 5 {
        Some(RobotState::Right)
    } else if code == 6 {
        Some(RobotState::Charging)
    } else if code == 7 {
        Some(RobotState::Daijuing)
    } else {
        None
    }
}

impl RobotState {
    /// Names a raw state code; `None` for a code outside the
    /// documented range.
    pub fn from_code(code: i8) -> (r: Option<RobotState>)
        ensures
            r == spec_state_of_code(code),
    {
        match code {
            -1 => Some(RobotState::Undef),
            0 => Some(RobotState::Idle),
            1 => Some(RobotState::Think),
            2 => Some(RobotState::Fwd),
            3 => Some(RobotState::Rev),
            4 => Some(RobotState::Left),
            5 => Some(RobotState::Right),
            6 => Some(RobotState::Charging),
            7 => Some(RobotState::Daijuing),
            _ => None,
        }
    }
}

} // verus!

