//! Forwarding of decoded frames: the rule that decides which frames go to
//! the broker, the bounded queue that takes them without ever blocking the
//! ingest loop, and the fan-out to live subscribers.
//!
//! Both channels are `tokio`'s and are trusted. A consumer may empty the
//! queue at any moment, so nothing is claimed of what the queue answers;
//! what is decided before the queue is asked, and what is made of its
//! answer, is verified.

use crate::constants::DISPATCH_QUEUE_CAPACITY;
use crate::flags::{PacketFlags, CAR_ON_TRACK, LOADING_OR_PROCESSING, PAUSED};
use crate::packet::Packet;
use crate::session::{
    check_packet_conditions, detail_due, detail_log_due, unmet_conditions, UnmetCondition,
};
use std::time::Duration;
use tokio::sync::broadcast;
use tokio::sync::mpsc;
use vstd::prelude::*;
use vstd::string::StrSliceExecFns;

verus! {

/// The producer's end of `tokio`'s bounded queue.
#[verifier::external_type_specification]
#[verifier::external_body]
#[verifier::reject_recursive_types(T)]
pub struct ExQueueSender<T>(tokio::sync::mpsc::Sender<T>);

/// The consumer's end of `tokio`'s bounded queue.
#[verifier::external_type_specification]
#[verifier::external_body]
#[verifier::reject_recursive_types(T)]
pub struct ExQueueReceiver<T>(tokio::sync::mpsc::Receiver<T>);

/// The publisher's end of `tokio`'s fan-out channel.
#[verifier::external_type_specification]
#[verifier::external_body]
#[verifier::reject_recursive_types(T)]
pub struct ExLiveSender<T>(tokio::sync::broadcast::Sender<T>);

/// The number of payloads that the queue behind `queue` was made to hold.
pub uninterp spec fn queue_capacity(queue: mpsc::Sender<Vec<u8>>) -> nat;

/// What the bounded queue answers to a payload.
#[derive(Debug, Clone, Copy, PartialEq, Eq, Structural)]
pub enum QueueAnswer {
    /// The payload is in the queue.
    Accepted,
    /// The queue holds as many payloads as it can; the payload is dropped.
    Full,
    /// The consumer is gone; the payload is dropped.
    Closed,
}

/// What became of a frame that was offered for forwarding.
#[derive(Debug, Clone, Copy, PartialEq, Eq, Structural)]
pub enum ForwardOutcome {
    /// The frame holds no valid flag set and cannot be judged.
    MissingFlags,
    /// The frame is paused, loading, outside a race or, where the track is
    /// asked for, off the track.
    Held,
    /// The frame may be forwarded but has no serialized form.
    SerializationFailed,
    /// The payload is in the queue.
    Enqueued,
    /// The queue was full and the payload was dropped.
    QueueFull,
    /// The consumer was gone and the payload was dropped.
    QueueClosed,
}

/// The forwarding rule: a frame goes to the broker only if it has a flag
/// set, is neither paused nor loading or processing, and belongs to a
/// race. With `require_on_track` the car must be on the track as well.
pub open spec fn may_forward(packet: Packet, require_on_track: bool) -> bool {
    &&& packet.flags matches Some(flags)
    &&& flags@ & (PAUSED | LOADING_OR_PROCESSING) == 0
    &&& packet.laps_in_race > 0
    &&& require_on_track ==> flags@ & CAR_ON_TRACK == CAR_ON_TRACK
}

/// Why a frame is not offered to the queue, if it is not.
pub open spec fn withheld(packet: Packet, require_on_track: bool, serialized: bool) -> Option<
    ForwardOutcome,
> {
    if packet.flags is None {
        Some(ForwardOutcome::MissingFlags)
    } else if !may_forward(packet, require_on_track) {
        Some(ForwardOutcome::Held)
    } else if !serialized {
        Some(ForwardOutcome::SerializationFailed)
    } else {
        None
    }
}

/// What a frame's outcome is once the queue has answered.
pub open spec fn settled(answer: QueueAnswer) -> ForwardOutcome {
    match answer {
        QueueAnswer::Accepted => ForwardOutcome::Enqueued,
        QueueAnswer::Full => ForwardOutcome::QueueFull,
        QueueAnswer::Closed => ForwardOutcome::QueueClosed,
    }
}

/// `tokio::sync::mpsc::channel`: both ends of a new bounded queue made to
/// hold `capacity` payloads. The crate panics on a capacity of zero or
/// above its semaphore's limit, which the precondition rules out.
#[verifier::external_body]
fn bounded_queue(capacity: usize) -> (ends: (mpsc::Sender<Vec<u8>>, mpsc::Receiver<Vec<u8>>))
    requires
        0 < capacity <= 0x1fff_ffff,
    ensures
        queue_capacity(ends.0) == capacity,
{
    mpsc::channel(capacity)
}

/// `tokio::sync::mpsc::Sender::try_send`: offers the payload without
/// waiting and tells the crate's three answers apart.
#[verifier::external_body]
fn offer(queue: &mpsc::Sender<Vec<u8>>, payload: Vec<u8>) -> QueueAnswer {
    match queue.try_send(payload) {
        Ok(()) => QueueAnswer::Accepted,
        Err(mpsc::error::TrySendError::Full(_)) => QueueAnswer::Full,
        Err(mpsc::error::TrySendError::Closed(_)) => QueueAnswer::Closed,
    }
}

/// `tokio::sync::broadcast::Sender::send`: publishes the text and returns
/// the number of subscribers at that moment, or nothing where there is
/// none.
#[verifier::external_body]
fn publish(live: &broadcast::Sender<String>, text: String) -> Option<usize> {
    live.send(text).ok()
}

/// Makes the broker queue, with room for [`DISPATCH_QUEUE_CAPACITY`]
/// payloads, and returns the producer's end and the consumer's end.
pub fn dispatch_queue() -> (ends: (mpsc::Sender<Vec<u8>>, mpsc::Receiver<Vec<u8>>))
    ensures
        queue_capacity(ends.0) == DISPATCH_QUEUE_CAPACITY,
{
    bounded_queue(DISPATCH_QUEUE_CAPACITY)
}

/// Decides whether a frame may be forwarded.
pub fn should_forward(packet: &Packet, require_on_track: bool) -> (pass: bool)
    ensures
        pass == may_forward(*packet, require_on_track),
{
    match packet.flags {
        Some(flags) => !flags.intersects(PacketFlags::paused() | PacketFlags::loading_or_processing())
            && packet.laps_in_race > 0 && (!require_on_track || flags.contains(
            PacketFlags::car_on_track(),
        )),
        None => false,
    }
}

/// Decides why a frame is kept from the queue, or that it is not.
pub fn withhold(packet: &Packet, require_on_track: bool, serialized: bool) -> (reason: Option<
    ForwardOutcome,
>)
    ensures
        reason == withheld(*packet, require_on_track, serialized),
{
    if packet.flags.is_none() {
        Some(ForwardOutcome::MissingFlags)
    } else if !should_forward(packet, require_on_track) {
        Some(ForwardOutcome::Held)
    } else if !serialized {
        Some(ForwardOutcome::SerializationFailed)
    } else {
        None
    }
}

/// Turns the queue's answer into the frame's outcome.
pub fn settle(answer: QueueAnswer) -> (outcome: ForwardOutcome)
    ensures
        outcome == settled(answer),
{
    match answer {
        QueueAnswer::Accepted => ForwardOutcome::Enqueued,
        QueueAnswer::Full => ForwardOutcome::QueueFull,
        QueueAnswer::Closed => ForwardOutcome::QueueClosed,
    }
}

/// Forwards one frame to the broker queue without ever waiting.
///
/// `payload` is the frame's serialized form, or nothing where it could not
/// be serialized. A frame that the rule holds back, or that has no
/// payload, never reaches the queue. Any other frame is offered to it once;
/// whether the queue takes it depends on its consumer and is reported as
/// it comes.
pub fn try_forward(
    queue: &mpsc::Sender<Vec<u8>>,
    packet: &Packet,
    payload: Option<Vec<u8>>,
    require_on_track: bool,
) -> (outcome: ForwardOutcome)
    ensures
        withheld(*packet, require_on_track, payload is Some) matches Some(reason) ==> outcome
            == reason,
        withheld(*packet, require_on_track, payload is Some) is None ==> (outcome
            == ForwardOutcome::Enqueued || outcome == ForwardOutcome::QueueFull || outcome
            == ForwardOutcome::QueueClosed),
{
    match withhold(packet, require_on_track, payload.is_some()) {
        Some(reason) => reason,
        None => settle(offer(queue, payload.unwrap())),
    }
}

/// The rule holds back every frame without a flag set, every frame that is
/// paused or loading or processing, and every frame with no lap to race.
/// Where the track is not asked for, it lets every other frame pass, and
/// such a frame with a payload is offered to the queue.
pub proof fn lemma_forwarding_rule(packet: Packet, require_on_track: bool, serialized: bool)
    ensures
        packet.flags is None ==> withheld(packet, require_on_track, serialized) == Some(
            ForwardOutcome::MissingFlags,
        ),
        packet.flags matches Some(flags) && (flags@ & PAUSED == PAUSED || flags@
            & LOADING_OR_PROCESSING == LOADING_OR_PROCESSING || packet.laps_in_race <= 0)
            ==> withheld(packet, require_on_track, serialized) == Some(ForwardOutcome::Held),
        packet.flags matches Some(flags) && flags@ & PAUSED == 0 && flags@ & LOADING_OR_PROCESSING
            == 0 && packet.laps_in_race > 0 ==> may_forward(packet, false) && withheld(
            packet,
            false,
            true,
        ) is None,
{
    if let Some(flags) = packet.flags {
        let bits = flags@;
        assert((bits & PAUSED == PAUSED || bits & LOADING_OR_PROCESSING == LOADING_OR_PROCESSING)
            ==> bits & (PAUSED | LOADING_OR_PROCESSING) != 0) by (bit_vector);
        assert((bits & PAUSED == 0 && bits & LOADING_OR_PROCESSING == 0) ==> bits & (PAUSED
            | LOADING_OR_PROCESSING) == 0) by (bit_vector);
    }
}

/// The text that live subscribers get for a frame: its serialized form,
/// or an empty object where it has none.
pub open spec fn live_text_of(serialized: Option<Seq<char>>) -> Seq<char> {
    match serialized {
        Some(text) => text,
        None => "{}"@,
    }
}

/// Chooses the text that live subscribers get for a frame.
pub fn live_text(serialized: Option<String>) -> (text: String)
    ensures
        text@ == live_text_of(
            match serialized {
                Some(s) => Some(s@),
                None => None,
            },
        ),
{
    match serialized {
        Some(text) => text,
        None => "{}".to_string(),
    }
}

/// Publishes a frame to the live subscribers, forwarded or not, and
/// returns how many were subscribed; a frame nobody listens to is lost.
pub fn publish_live(live: &broadcast::Sender<String>, serialized: Option<String>) -> usize {
    subscribers_reached(publish(live, live_text(serialized)))
}

/// The number of subscribers that the channel's answer stands for: the
/// number it names, or none where the channel had nobody subscribed.
pub open spec fn reached(answer: Option<usize>) -> usize {
    match answer {
        Some(subscribers) => subscribers,
        None => 0,
    }
}

/// Reads the number of subscribers off the channel's answer.
pub fn subscribers_reached(answer: Option<usize>) -> (subscribers: usize)
    ensures
        subscribers == reached(answer),
{
    match answer {
        Some(subscribers) => subscribers,
        None => 0,
    }
}

/// What was done with one decoded frame, for the caller to log.
#[derive(Debug)]
pub struct PacketReport {
    /// What became of the frame on its way to the broker.
    pub forwarded: ForwardOutcome,
    /// How many live subscribers the frame was published to.
    pub subscribers: usize,
    /// Whether the periodic detail line is due.
    pub detail_due: bool,
    /// The conditions the frame fails to meet; none where it has no flags.
    pub unmet: Vec<UnmetCondition>,
}

/// The conditions that a frame fails to meet; none where it has no flag
/// set to judge it by.
pub open spec fn unmet_by(packet: Packet) -> Seq<UnmetCondition> {
    match packet.flags {
        Some(flags) => unmet_conditions(flags@, packet.laps_in_race),
        None => seq![],
    }
}

/// Handles one decoded frame: forwards it to the broker queue if it may be
/// forwarded, publishes it to the live subscribers in any case, and
/// reports what the caller is to log. `serialized` is the frame's JSON
/// form, `elapsed` the time since the last periodic detail line.
pub fn handle_packet(
    queue: &mpsc::Sender<Vec<u8>>,
    require_on_track: bool,
    live: &broadcast::Sender<String>,
    packet: &Packet,
    serialized: Option<String>,
    elapsed: Duration,
    log_interval: Option<Duration>,
) -> (report: PacketReport)
    ensures
        withheld(*packet, require_on_track, serialized is Some) matches Some(reason)
            ==> report.forwarded == reason,
        withheld(*packet, require_on_track, serialized is Some) is None ==> (report.forwarded
            == ForwardOutcome::Enqueued || report.forwarded == ForwardOutcome::QueueFull
            || report.forwarded == ForwardOutcome::QueueClosed),
        report.detail_due == detail_due(elapsed, log_interval),
        report.unmet@ == unmet_by(*packet),
{
    let payload = match &serialized {
        Some(text) => Some(text.as_str().as_bytes_vec()),
        None => None,
    };
    let forwarded = try_forward(queue, packet, payload, require_on_track);
    let subscribers = publish_live(live, serialized);
    let detail_due = detail_log_due(elapsed, log_interval);
    let unmet = match packet.flags {
        Some(flags) => check_packet_conditions(flags, packet.laps_in_race),
        None => Vec::new(),
    };
    PacketReport { forwarded, subscribers, detail_due, unmet }
}

} // verus!
