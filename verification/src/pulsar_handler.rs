//! The ingest loop's handle on the Pulsar worker's queue.

use crate::dispatch::{
    handle_packet, try_forward, unmet_by, withheld, ForwardOutcome, PacketReport,
};
use crate::packet::Packet;
use crate::session::detail_due;
use std::time::Duration;
use tokio::sync::broadcast;
use tokio::sync::mpsc;
use vstd::prelude::*;

verus! {

/// Hands serialized frames that may be forwarded to the worker that owns the Pulsar
/// producer.
pub struct PulsarHandler {
    message_sender: mpsc::Sender<Vec<u8>>,
    require_on_track: bool,
}

impl PulsarHandler {
    /// The producer's end of the queue that the handler feeds.
    pub closed spec fn queue(&self) -> mpsc::Sender<Vec<u8>> {
        self.message_sender
    }

    /// Whether the handler forwards only frames of a car on the track.
    pub closed spec fn requires_on_track(&self) -> bool {
        self.require_on_track
    }

    /// A handler that feeds the queue behind `message_sender` and does not
    /// ask for the car to be on the track.
    pub fn from_sender(message_sender: mpsc::Sender<Vec<u8>>) -> (handler: PulsarHandler)
        ensures
            handler.queue() == message_sender,
            !handler.requires_on_track(),
    {
        PulsarHandler { message_sender, require_on_track: false }
    }

    /// A handler that feeds the queue behind `message_sender` and forwards
    /// only frames of a car on the track.
    pub fn on_track_only(message_sender: mpsc::Sender<Vec<u8>>) -> (handler: PulsarHandler)
        ensures
            handler.queue() == message_sender,
            handler.requires_on_track(),
    {
        PulsarHandler { message_sender, require_on_track: true }
    }

    /// Forwards the frame as [`try_forward`] does, under the handler's
    /// rule.
    pub fn try_send_packet(&self, packet: &Packet, payload: Option<Vec<u8>>) -> (outcome:
        ForwardOutcome)
        ensures
            withheld(*packet, self.requires_on_track(), payload is Some) matches Some(reason)
                ==> outcome == reason,
            withheld(*packet, self.requires_on_track(), payload is Some) is None ==> (outcome
                == ForwardOutcome::Enqueued || outcome == ForwardOutcome::QueueFull || outcome
                == ForwardOutcome::QueueClosed),
    {
        try_forward(&self.message_sender, packet, payload, self.require_on_track)
    }

    /// Handles one decoded frame as [`handle_packet`] does, with the
    /// handler's queue and rule.
    pub fn handle_packet(
        &self,
        live: &broadcast::Sender<String>,
        packet: &Packet,
        serialized: Option<String>,
        elapsed: Duration,
        log_interval: Option<Duration>,
    ) -> (report: PacketReport)
        ensures
            withheld(*packet, self.requires_on_track(), serialized is Some) matches Some(reason)
                ==> report.forwarded == reason,
            withheld(*packet, self.requires_on_track(), serialized is Some) is None ==> (
            report.forwarded == ForwardOutcome::Enqueued || report.forwarded
                == ForwardOutcome::QueueFull || report.forwarded == ForwardOutcome::QueueClosed),
            report.detail_due == detail_due(elapsed, log_interval),
            report.unmet@ == unmet_by(*packet),
    {
        handle_packet(
            &self.message_sender,
            self.require_on_track,
            live,
            packet,
            serialized,
            elapsed,
            log_interval,
        )
    }
}

} // verus!
