//! Cancellable telemetry listen loop.
//!
//! The listener owns its session while active — taking the session by
//! value is what makes a second listener on the same session
//! impossible — and is driven by the caller's reading thread: each
//! blocking read's outcome is reported here, and a cooperative cancel
//! flag is checked once per frame, never mid-read. Frames are
//! published in the exact order they arrive on the wire; the verified
//! loop below pins that ordering down against the byte stream itself.

use vstd::prelude::*;

use crate::codec::{spec_decode_payload, decode_payload, FrameView, InboundFrame};
use crate::error::RobotError;
use crate::session::{Session, SessionState};
use crate::wire::{be_u16, u16_from_be};

verus! {

/// Every complete frame in `bytes`, decoded in wire order. Decoding
/// stops at the first incomplete header or payload; a trailing partial
/// frame yields nothing rather than a partial delivery.
pub open spec fn spec_frames_of(bytes: Seq<u8>) -> Seq<FrameView>
    decreases bytes.len(),
{
    if bytes.len() < 3 {
        seq![]
    } else {
        let len = be_u16(bytes[1], bytes[2]);
        if bytes.len() < 3 + len {
            seq![]
        } else {
            seq![spec_decode_payload(bytes[0], bytes.subrange(3, 3 + len))] + spec_frames_of(
                bytes.skip(3 + len),
            )
        }
    }
}

/// What a listen loop delivers out of `all` when a cancel signal
/// arrives while frame number `cancel_during` (counted from zero) is
/// being read: the signal is observed only at the per-frame check, so
/// that frame is still delivered in full. `None` means no cancel.
pub open spec fn spec_delivered(all: Seq<FrameView>, cancel_during: Option<usize>) -> Seq<
    FrameView,
> {
    match cancel_during {
        None => all,
        Some(k) => if all.len() <= k + 1 {
            all
        } else {
            all.take(k + 1)
        },
    }
}

/// Copies `count` bytes starting at `start` out of `bytes`.
pub fn copy_range(bytes: &Vec<u8>, start: usize, count: usize) -> (r: Vec<u8>)
    requires
        start + count <= bytes@.len(),
    ensures
        r@ == bytes@.subrange(start as int, start as int + count),
{
    let n: usize = bytes.len();
    let mut r: Vec<u8> = Vec::new();
    assert(r@ =~= bytes@.subrange(start as int, start as int));
    let mut i: usize = 0;
    while i < count
        invariant
            i <= count,
            start + count <= n,
            n == bytes@.len(),
            r@ == bytes@.subrange(start as int, start as int + i),
        decreases count - i,
    {
        r.push(bytes[start + i]);
        assert(r@ =~= bytes@.subrange(start as int, start as int + i + 1));
        i = i + 1;
    }
    r
}

/// Runs one listen loop over a byte stream, exactly as the reading
/// thread does against the socket: take a header, take the declared
/// payload, decode, deliver, then check the cancel flag. Delivery
/// order equals wire order, and a cancel that arrives mid-frame still
/// delivers that frame before the loop stops.
pub fn listen_script(bytes: &Vec<u8>, cancel_during: Option<usize>) -> (frames: Vec<InboundFrame>)
    ensures
        frames@.map_values(|f: InboundFrame| f@) == spec_delivered(
            spec_frames_of(bytes@),
            cancel_during,
        ),
{
    let ghost all = spec_frames_of(bytes@);
    let mut out: Vec<InboundFrame> = Vec::new();
    let mut pos: usize = 0;
    assert(bytes@.skip(0) =~= bytes@);
    assert(all =~= out@.map_values(|f: InboundFrame| f@) + spec_frames_of(bytes@.skip(0)));
    loop
        invariant_except_break
            cancel_during matches Some(k) ==> out@.len() <= k,
        invariant
            pos <= bytes@.len(),
            all == spec_frames_of(bytes@),
            all == out@.map_values(|f: InboundFrame| f@) + spec_frames_of(
                bytes@.skip(pos as int),
            ),
        ensures
            out@.map_values(|f: InboundFrame| f@) == spec_delivered(all, cancel_during),
        decreases bytes@.len() - pos,
    {
        let ghost rest = bytes@.skip(pos as int);
        let ghost done = out@.map_values(|f: InboundFrame| f@);
        if bytes.len() - pos < 3 {
            assert(spec_frames_of(rest) =~= Seq::<FrameView>::empty());
            assert(done =~= all);
            break;
        }
        let opcode = bytes[pos];
        let declared = u16_from_be(bytes[pos + 1], bytes[pos + 2]);
        let len = declared as usize;
        assert(rest[0] == bytes@[pos as int] && rest[1] == bytes@[pos as int + 1] && rest[2]
            == bytes@[pos as int + 2]);
        if bytes.len() - pos - 3 < len {
            assert(spec_frames_of(rest) =~= Seq::<FrameView>::empty());
            assert(done =~= all);
            break;
        }
        let payload = copy_range(bytes, pos + 3, len);
        assert(payload@ =~= rest.subrange(3, 3 + len as int));
        let frame = decode_payload(opcode, payload);
        out.push(frame);
        assert(rest.skip(3 + len as int) =~= bytes@.skip(pos as int + 3 + len as int));
        assert(spec_frames_of(rest) == seq![frame@] + spec_frames_of(
            bytes@.skip(pos as int + 3 + len as int),
        ));
        assert(out@.map_values(|f: InboundFrame| f@) =~= done + seq![frame@]);
        assert(all =~= out@.map_values(|f: InboundFrame| f@) + spec_frames_of(
            bytes@.skip(pos as int + 3 + len as int),
        ));
        pos = pos + 3 + len;
        match cancel_during {
            Some(k) => {
                if out.len() > k {
                    assert(out@.len() == k + 1);
                    assert(all.len() >= k + 1);
                    assert(out@.map_values(|f: InboundFrame| f@) =~= all.take(k + 1));
                    break;
                }
            },
            None => {},
        }
    }
    out
}

/// The listen loop's own state: the session it exclusively owns while
/// active, plus the cooperative cancel flag.
pub struct Listener {
    session: Session,
    cancel_requested: bool,
}

impl Listener {
    /// Whether a cancel signal has been received.
    pub closed spec fn cancel_pending(&self) -> bool {
        self.cancel_requested
    }

    /// The state of the owned session.
    pub closed spec fn session_state(&self) -> SessionState {
        self.session@
    }

    /// Starts listening on a session. The session is taken by value:
    /// exactly one listener can drive it, and no direct command call
    /// can interleave until [`Listener::shutdown`] hands it back.
    pub fn start(session: Session) -> (l: Listener)
        ensures
            l.session_state() == session@,
            !l.cancel_pending(),
    {
        Listener { session, cancel_requested: false }
    }

    /// Records a cancel signal. Cooperative: the loop observes it at
    /// the next per-frame check, so a pending blocking read still
    /// completes and its frame is still delivered.
    pub fn cancel(&mut self)
        ensures
            final(self).cancel_pending(),
            final(self).session_state() == old(self).session_state(),
    {
        self.cancel_requested = true;
    }

    /// The per-frame check: whether the loop must stop now.
    pub fn should_stop(&self) -> (b: bool)
        ensures
            b == self.cancel_pending(),
    {
        self.cancel_requested
    }

    /// Records a failed read, including a forced unblock from
    /// cancellation: the session is disconnected and the loop
    /// terminates instead of panicking.
    pub fn read_failed(&mut self) -> (e: RobotError)
        ensures
            final(self).session_state() == SessionState::Disconnected,
            final(self).cancel_pending() == old(self).cancel_pending(),
            e.err_type == crate::error::RobotErrorType::Read,
    {
        self.session.read_failed()
    }

    /// Stops listening: the session comes back disconnected, its
    /// socket shut down by the loop on its way out.
    pub fn shutdown(self) -> (s: Session)
        ensures
            s@ == SessionState::Disconnected,
    {
        let mut session = self.session;
        session.disconnect();
        session
    }
}

} // verus!
