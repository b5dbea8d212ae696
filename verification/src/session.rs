//! The ingest loop's decisions.
//!
//! The console streams only while keep-alives reach it. The loop therefore
//! sends one keep-alive before every receive, waits a moment after a failed
//! send, and hands on only datagrams of exactly the frame size. Sockets
//! are not touched here: the caller performs each action and reports what
//! came of it.

use crate::constants::{PACKET_SIZE, SEND_RETRY_DELAY_MS};
use crate::flags::{PacketFlags, CAR_ON_TRACK, LOADING_OR_PROCESSING, PAUSED};
use crate::heartbeat::{due_after, heartbeat_due};
use std::time::Duration;
use vstd::prelude::*;

verus! {

/// What the loop is about to do.
#[derive(Debug, Clone, Copy, PartialEq, Eq, Structural)]
pub enum SessionState {
    /// Send the opening keep-alive.
    Handshake,
    /// Send the keep-alive that precedes a receive.
    Sending,
    /// Wait for one datagram, no longer than the receive timeout.
    Receiving,
}

/// What came of the action that the state asked for.
#[derive(Debug, Clone, Copy, PartialEq, Eq, Structural)]
pub enum SessionEvent {
    /// The keep-alive went out.
    SendSucceeded,
    /// The keep-alive could not be sent.
    SendFailed,
    /// A datagram of the length held arrived.
    Datagram(usize),
    /// Nothing arrived within the timeout.
    ReceiveTimedOut,
    /// Receiving failed for another reason than the timeout.
    ReceiveFailed,
}

/// What the loop makes of an event.
#[derive(Debug, Clone, Copy, PartialEq, Eq, Structural)]
pub enum Verdict {
    /// The opening keep-alive went out.
    HandshakeSent,
    /// The opening keep-alive failed; the loop goes on and sends again.
    HandshakeFailed,
    /// A keep-alive went out; a receive follows.
    KeepAliveSent,
    /// A keep-alive failed; no receive follows in this cycle.
    KeepAliveFailed,
    /// The datagram has the frame size and is to be decoded.
    Frame,
    /// The datagram, of the length held, is no frame and is discarded.
    WrongSize(usize),
    /// Nothing arrived: the common idle case, no error.
    Idle,
    /// Receiving failed; the loop goes on.
    ReceiveError,
    /// The event does not answer the state's action; the state stays.
    Unexpected,
}

/// One turn of the loop: the verdict on the event, the state that follows,
/// and how many milliseconds to wait before acting on it.
#[derive(Debug, Clone, Copy, PartialEq, Eq, Structural)]
pub struct Step {
    pub verdict: Verdict,
    pub next: SessionState,
    pub delay_ms: u64,
}

/// The turn that the protocol prescribes for `event` in `state`.
pub open spec fn step_of(state: SessionState, event: SessionEvent) -> Step {
    match (state, event) {
        (SessionState::Handshake, SessionEvent::SendSucceeded) => Step {
            verdict: Verdict::HandshakeSent,
            next: SessionState::Sending,
            delay_ms: 0,
        },
        (SessionState::Handshake, SessionEvent::SendFailed) => Step {
            verdict: Verdict::HandshakeFailed,
            next: SessionState::Sending,
            delay_ms: 0,
        },
        (SessionState::Sending, SessionEvent::SendSucceeded) => Step {
            verdict: Verdict::KeepAliveSent,
            next: SessionState::Receiving,
            delay_ms: 0,
        },
        (SessionState::Sending, SessionEvent::SendFailed) => Step {
            verdict: Verdict::KeepAliveFailed,
            next: SessionState::Sending,
            delay_ms: SEND_RETRY_DELAY_MS,
        },
        (SessionState::Receiving, SessionEvent::Datagram(len)) => Step {
            verdict: if len == PACKET_SIZE {
                Verdict::Frame
            } else {
                Verdict::WrongSize(len)
            },
            next: SessionState::Sending,
            delay_ms: 0,
        },
        (SessionState::Receiving, SessionEvent::ReceiveTimedOut) => Step {
            verdict: Verdict::Idle,
            next: SessionState::Sending,
            delay_ms: 0,
        },
        (SessionState::Receiving, SessionEvent::ReceiveFailed) => Step {
            verdict: Verdict::ReceiveError,
            next: SessionState::Sending,
            delay_ms: 0,
        },
        _ => Step { verdict: Verdict::Unexpected, next: state, delay_ms: 0 },
    }
}

/// The state in which the loop starts.
pub fn start() -> (state: SessionState)
    ensures
        state == SessionState::Handshake,
{
    SessionState::Handshake
}

/// Takes one turn of the loop.
pub fn step(state: SessionState, event: SessionEvent) -> (turn: Step)
    ensures
        turn == step_of(state, event),
{
    match state {
        SessionState::Handshake => match event {
            SessionEvent::SendSucceeded => Step {
                verdict: Verdict::HandshakeSent,
                next: SessionState::Sending,
                delay_ms: 0,
            },
            SessionEvent::SendFailed => Step {
                verdict: Verdict::HandshakeFailed,
                next: SessionState::Sending,
                delay_ms: 0,
            },
            _ => Step { verdict: Verdict::Unexpected, next: state, delay_ms: 0 },
        },
        SessionState::Sending => match event {
            SessionEvent::SendSucceeded => Step {
                verdict: Verdict::KeepAliveSent,
                next: SessionState::Receiving,
                delay_ms: 0,
            },
            SessionEvent::SendFailed => Step {
                verdict: Verdict::KeepAliveFailed,
                next: SessionState::Sending,
                delay_ms: SEND_RETRY_DELAY_MS,
            },
            _ => Step { verdict: Verdict::Unexpected, next: state, delay_ms: 0 },
        },
        SessionState::Receiving => {
            let verdict = match event {
                SessionEvent::Datagram(len) => classify_datagram(len),
                SessionEvent::ReceiveTimedOut => Verdict::Idle,
                SessionEvent::ReceiveFailed => Verdict::ReceiveError,
                _ => Verdict::Unexpected,
            };
            match verdict {
                Verdict::Unexpected => Step { verdict, next: state, delay_ms: 0 },
                _ => Step { verdict, next: SessionState::Sending, delay_ms: 0 },
            }
        },
    }
}

/// Tells a frame from a datagram of any other size.
pub fn classify_datagram(len: usize) -> (verdict: Verdict)
    ensures
        len == PACKET_SIZE ==> verdict == Verdict::Frame,
        len != PACKET_SIZE ==> verdict == Verdict::WrongSize(len),
{
    if len == PACKET_SIZE {
        Verdict::Frame
    } else {
        Verdict::WrongSize(len)
    }
}

/// The loop comes to receive only by a keep-alive that went out, and after
/// every receive a keep-alive is due again: the console never goes without
/// one for longer than a receive lasts. The loop never returns to the
/// handshake, a datagram is decoded exactly when it has the frame size,
/// and the loop waits only after a keep-alive that failed.
pub proof fn lemma_keep_alive_before_receive(state: SessionState, event: SessionEvent)
    ensures
        state != SessionState::Receiving && step_of(state, event).next
            == SessionState::Receiving ==> state == SessionState::Sending && event
            == SessionEvent::SendSucceeded,
        state == SessionState::Receiving && step_of(state, event).verdict != Verdict::Unexpected
            ==> step_of(state, event).next == SessionState::Sending,
        step_of(state, event).next != SessionState::Handshake || state
            == SessionState::Handshake,
        step_of(state, event).verdict == Verdict::Frame <==> state == SessionState::Receiving
            && event == SessionEvent::Datagram(PACKET_SIZE),
        step_of(state, event).delay_ms != 0 <==> state == SessionState::Sending && event
            == SessionEvent::SendFailed,
{
}

/// A condition that keeps a frame from being worth sending on.
#[derive(Debug, Clone, Copy, PartialEq, Eq, Structural)]
pub enum UnmetCondition {
    Paused,
    LoadingOrProcessing,
    NotOnTrack,
    RaceNotStarted,
}

/// The conditions that a frame with these flags and this many laps fails
/// to meet, in the order paused, loading or processing, not on track, race
/// not started.
pub open spec fn unmet_conditions(flags: u16, laps_in_race: i16) -> Seq<UnmetCondition> {
    (if flags & PAUSED == PAUSED {
        seq![UnmetCondition::Paused]
    } else {
        seq![]
    }) + (if flags & LOADING_OR_PROCESSING == LOADING_OR_PROCESSING {
        seq![UnmetCondition::LoadingOrProcessing]
    } else {
        seq![]
    }) + (if flags & CAR_ON_TRACK != CAR_ON_TRACK {
        seq![UnmetCondition::NotOnTrack]
    } else {
        seq![]
    }) + (if laps_in_race <= 0 {
        seq![UnmetCondition::RaceNotStarted]
    } else {
        seq![]
    })
}

/// Lists, for the diagnostic log, the conditions that a decoded frame
/// fails to meet. The list is made whether or not the frame was forwarded.
pub fn check_packet_conditions(flags: PacketFlags, laps_in_race: i16) -> (reasons: Vec<
    UnmetCondition,
>)
    ensures
        reasons@ == unmet_conditions(flags@, laps_in_race),
{
    let mut reasons: Vec<UnmetCondition> = Vec::new();
    if flags.contains(PacketFlags::paused()) {
        reasons.push(UnmetCondition::Paused);
    }
    if flags.contains(PacketFlags::loading_or_processing()) {
        reasons.push(UnmetCondition::LoadingOrProcessing);
    }
    if !flags.contains(PacketFlags::car_on_track()) {
        reasons.push(UnmetCondition::NotOnTrack);
    }
    if laps_in_race <= 0 {
        reasons.push(UnmetCondition::RaceNotStarted);
    }
    assert(reasons@ =~= unmet_conditions(flags@, laps_in_race));
    reasons
}

/// Whether the periodic detail line is due: the log is switched on and at
/// least its interval has gone by since the last line.
pub open spec fn detail_due(elapsed: Duration, interval: Option<Duration>) -> bool {
    interval matches Some(every) && due_after(elapsed, every)
}

/// Decides whether the periodic detail line is due.
pub fn detail_log_due(elapsed: Duration, interval: Option<Duration>) -> (due: bool)
    ensures
        due == detail_due(elapsed, interval),
{
    match interval {
        Some(every) => heartbeat_due(elapsed, every),
        None => false,
    }
}

} // verus!
