//! Transport session state machine.
//!
//! A session owns exactly one live socket at a time; here it is the
//! socket's *state* that is modelled and verified, while the caller
//! performs the blocking socket operations and reports their outcomes.
//! The state moves from `Disconnected` to `Connected` only through a
//! successful connect, and any reported read or write failure, or an
//! explicit disconnect, moves it back to `Disconnected`.

use vstd::prelude::*;

use crate::codec::{spec_encode, encode, FrameView, InboundFrame, OutboundCommand};
use crate::error::{RobotError, RobotErrorType};

verus! {

/// The two states of a transport session.
#[derive(Clone, Copy, Debug, PartialEq, Eq, Structural)]
pub enum SessionState {
    Disconnected,
    Connected,
}

/// A named 2-D location reported by the robot.
#[derive(Clone, Copy, Debug, PartialEq, Eq, Structural)]
pub struct RobotLocation {
    pub x: i32,
    pub y: i32,
}

/// The protocol-visible state of the one owned socket. The caller
/// holds the socket itself and reports connect, read and write
/// outcomes; the session guarantees the state transitions.
#[derive(Debug)]
pub struct Session {
    state: SessionState,
}

impl View for Session {
    type V = SessionState;

    closed spec fn view(&self) -> SessionState {
        self.state
    }
}

impl Session {
    /// Records the outcome of one connect-with-timeout attempt. A
    /// session exists in the `Connected` state exactly when the
    /// attempt succeeded; a timeout or refusal yields a `Connection`
    /// error and no session, leaving no open handle behind.
    pub fn connect_outcome(success: bool) -> (r: Result<Session, RobotError>)
        ensures
            success ==> (r matches Ok(s) && s@ == SessionState::Connected),
            !success ==> (r matches Err(e) && e.err_type == RobotErrorType::Connection),
    {
        if success {
            Ok(Session { state: SessionState::Connected })
        } else {
            Err(RobotError { err_type: RobotErrorType::Connection })
        }
    }

    /// Disconnects. Idempotent: on an already-disconnected session it
    /// does nothing, and in every case the state ends `Disconnected`
    /// and the socket handle is no longer usable.
    pub fn disconnect(&mut self)
        ensures
            final(self)@ == SessionState::Disconnected,
    {
        self.state = SessionState::Disconnected;
    }

    /// Whether the session currently holds a live socket.
    pub fn is_connected(&self) -> (b: bool)
        ensures
            b == (self@ == SessionState::Connected),
    {
        matches!(self.state, SessionState::Connected)
    }

    /// Encodes a command for this session's socket. On a connected
    /// session it yields exactly the frame bytes the caller must write
    /// in full; on a disconnected one it fails with `Write`, since the
    /// socket is gone.
    pub fn send_command(&self, cmd: &OutboundCommand) -> (r: Result<Vec<u8>, RobotError>)
        ensures
            self@ == SessionState::Connected ==> (r matches Ok(bytes) && bytes@ == spec_encode(
                *cmd,
            )),
            self@ == SessionState::Disconnected ==> (r matches Err(e) && e.err_type
                == RobotErrorType::Write),
    {
        match self.state {
            SessionState::Connected => Ok(encode(cmd)),
            SessionState::Disconnected => Err(RobotError { err_type: RobotErrorType::Write }),
        }
    }

    /// Records the outcome of writing one frame. A short or failed
    /// write kills the session and surfaces `Write`; the caller must
    /// reconnect before using it again.
    pub fn write_outcome(&mut self, success: bool) -> (r: Result<(), RobotError>)
        ensures
            success ==> (r matches Ok(u) && final(self)@ == old(self)@),
            !success ==> (r matches Err(e) && e.err_type == RobotErrorType::Write && final(self)@
                == SessionState::Disconnected),
    {
        if success {
            Ok(())
        } else {
            self.state = SessionState::Disconnected;
            Err(RobotError { err_type: RobotErrorType::Write })
        }
    }

    /// Records a failed or short socket read, including a forced
    /// unblock from cancellation: the session is dead and the caller
    /// gets `Read`.
    pub fn read_failed(&mut self) -> (e: RobotError)
        ensures
            final(self)@ == SessionState::Disconnected,
            e.err_type == RobotErrorType::Read,
    {
        self.state = SessionState::Disconnected;
        RobotError { err_type: RobotErrorType::Read }
    }
}

/// The location carried by a frame, if it is a position frame.
pub open spec fn spec_position_of(f: FrameView) -> Option<RobotLocation> {
    match f {
        FrameView::Position { angle, x, y } => {
            if i32::MIN <= x <= i32::MAX && i32::MIN <= y <= i32::MAX {
                Some(RobotLocation { x: x as i32, y: y as i32 })
            } else {
                None
            }
        },
        _ => None,
    }
}

/// Extracts the location from a position frame; every other frame is
/// discarded by the read-until-position loop.
pub fn position_of(frame: &InboundFrame) -> (r: Option<RobotLocation>)
    ensures
        r == spec_position_of(frame@),
{
    match frame {
        InboundFrame::Position { angle: _, x, y } => Some(RobotLocation { x: *x, y: *y }),
        _ => None,
    }
}

/// The first position among a sequence of decoded frames, if any.
pub open spec fn spec_first_position(frames: Seq<FrameView>) -> Option<RobotLocation>
    decreases frames.len(),
{
    if frames.len() == 0 {
        None
    } else if spec_position_of(frames[0]) is Some {
        spec_position_of(frames[0])
    } else {
        spec_first_position(frames.skip(1))
    }
}

/// Scans decoded frames in arrival order and keeps the first position,
/// exactly as the unbounded read-until-position loop would, discarding
/// everything before it.
pub fn first_position(frames: &Vec<InboundFrame>) -> (r: Option<RobotLocation>)
    ensures
        r == spec_first_position(frames@.map_values(|f: InboundFrame| f@)),
{
    let ghost all = frames@.map_values(|f: InboundFrame| f@);
    assert(all.skip(0) =~= all);
    let mut i: usize = 0;
    while i < frames.len()
        invariant
            i <= frames@.len(),
            all == frames@.map_values(|f: InboundFrame| f@),
            spec_first_position(all) == spec_first_position(all.skip(i as int)),
        decreases frames@.len() - i,
    {
        let p = position_of(&frames[i]);
        assert(all.skip(i as int)[0] == frames@[i as int]@);
        if p.is_some() {
            assert(spec_first_position(all.skip(i as int)) == p);
            return p;
        }
        assert(all.skip(i as int).skip(1) =~= all.skip(i as int + 1));
        i = i + 1;
    }
    assert(all.skip(i as int).len() == 0);
    None
}

} // verus!
