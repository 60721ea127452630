//! Operations that compose the point store with the session and codec:
//! "go to point" and "save current position as point". The caller
//! performs the socket writes and the configuration persistence; the
//! decisions and the frame bytes are fixed here.

use vstd::prelude::*;

use crate::codec::{spec_encode, encode, OutboundCommand};
use crate::config::{Config, ConfigHandler};
use crate::error::{RobotError, RobotErrorType};
use crate::session::{RobotLocation, Session, SessionState};

verus! {

/// Decides the goto command for a named point: the exact frame bytes
/// to write for a known point name, nothing for an unknown one.
pub fn handle_goto_location(location: &str, config: &mut Config) -> (r: Option<Vec<u8>>)
    ensures
        *final(config) == *old(config),
        match old(config).spec_get_point(location@) {
            Some(p) => r matches Some(bytes) && bytes@ == spec_encode(
                OutboundCommand::GotoXY { x: p.0, y: p.1 },
            ),
            None => r is None,
        },
{
    match config.get_point(location) {
        Ok(p) => Some(encode(&OutboundCommand::GotoXY { x: p.0, y: p.1 })),
        Err(_) => None,
    }
}

/// Routes the robot to a point from the configuration. An unknown
/// point name fails with `Read`; a dead session fails with `Write`;
/// otherwise the result is the goto frame the caller must write in
/// full to the session's socket.
pub fn goto_point(session: &Session, config: &mut Config, point: &str) -> (r: Result<
    Vec<u8>,
    RobotError,
>)
    ensures
        *final(config) == *old(config),
        match old(config).spec_get_point(point@) {
            None => r matches Err(e) && e.err_type == RobotErrorType::Read,
            Some(p) => {
                if session@ == SessionState::Connected {
                    r matches Ok(bytes) && bytes@ == spec_encode(
                        OutboundCommand::GotoXY { x: p.0, y: p.1 },
                    )
                } else {
                    r matches Err(e) && e.err_type == RobotErrorType::Write
                }
            },
        },
{
    match config.get_point(point) {
        Ok(p) => session.send_command(&OutboundCommand::GotoXY { x: p.0, y: p.1 }),
        Err(_) => Err(RobotError { err_type: RobotErrorType::Read }),
    }
}

/// Records a location under a point name: the point store ends up
/// holding exactly this location under that name, and nothing else
/// moves. Persisting the configuration afterwards is the caller's
/// step.
pub fn save_location(config: &mut Config, name: &str, location: RobotLocation) -> (r: Result<
    (),
    RobotError,
>)
    ensures
        r is Ok,
        final(config).spec_get_point(name@) == (if old(config).spec_get_point(name@) is Some {
            Some((location.x, location.y))
        } else {
            None::<(i32, i32)>
        }),
        forall|other: Seq<char>|
            other != name@ ==> final(config).spec_get_point(other) == old(config).spec_get_point(
                other,
            ),
{
    match config.set_point(name, location.x, location.y) {
        Ok(u) => Ok(u),
        Err(_) => Err(RobotError { err_type: RobotErrorType::Write }),
    }
}

} // verus!
