use gt7_telemetry::constants::DISPATCH_QUEUE_CAPACITY;
use gt7_telemetry::dispatch::{
    dispatch_queue, handle_packet, live_text, publish_live, settle, should_forward,
    subscribers_reached, try_forward, withhold, ForwardOutcome, QueueAnswer,
};
use gt7_telemetry::session::UnmetCondition;
use std::time::Duration;
use gt7_telemetry::flags::PacketFlags;
use gt7_telemetry::kafka_handler::KafkaHandler;
use gt7_telemetry::packet::Packet;
use gt7_telemetry::pulsar_handler::PulsarHandler;
use tokio::sync::{broadcast, mpsc};

fn base_test_packet() -> Packet {
    Packet {
        packet_id: 0,
        flags: Some(PacketFlags::empty()),
        laps_in_race: 0,
        ..Default::default()
    }
}

fn serialized(packet: &Packet) -> Vec<u8> {
    format!(
        "{{\"packet_id\":{},\"laps_in_race\":{},\"flags\":{}}}",
        packet.packet_id,
        packet.laps_in_race,
        packet.flags.map_or(0, |f| f.bits())
    )
    .into_bytes()
}

#[test]
fn pulsar_handler_try_send_packet_sends_when_conditions_met() {
    let (tx, mut rx) = mpsc::channel::<Vec<u8>>(10);
    let handler = PulsarHandler::from_sender(tx);
    let mut packet = base_test_packet();
    packet.packet_id = 1;
    packet.flags = Some(PacketFlags::car_on_track());
    packet.laps_in_race = 1;
    handler.try_send_packet(&packet, Some(serialized(&packet)));
    let received_payload = rx.try_recv().ok();
    assert!(received_payload.is_some(), "Expected a message to be sent");
    if let Some(payload_bytes) = received_payload {
        let sent_packet_json = serialized(&packet);
        assert_eq!(
            payload_bytes, sent_packet_json,
            "Payload should match serialized original packet"
        );
    }
}

#[test]
fn pulsar_handler_try_send_packet_does_not_send_when_paused() {
    let (tx, mut rx) = mpsc::channel::<Vec<u8>>(10);
    let handler = PulsarHandler::from_sender(tx);
    let mut packet = base_test_packet();
    packet.flags = Some(PacketFlags::car_on_track() | PacketFlags::paused());
    packet.laps_in_race = 1;
    handler.try_send_packet(&packet, Some(serialized(&packet)));
    assert!(
        rx.try_recv().is_err(),
        "Expected no message when packet is paused"
    );
}

#[test]
fn pulsar_handler_try_send_packet_does_not_send_when_loading() {
    let (tx, mut rx) = mpsc::channel::<Vec<u8>>(10);
    let handler = PulsarHandler::from_sender(tx);
    let mut packet = base_test_packet();
    packet.flags = Some(PacketFlags::car_on_track() | PacketFlags::loading_or_processing());
    packet.laps_in_race = 1;
    handler.try_send_packet(&packet, Some(serialized(&packet)));
    assert!(
        rx.try_recv().is_err(),
        "Expected no message when packet is loading"
    );
}

#[test]
fn try_send_packet_does_not_send_when_not_on_track() {
    let (tx, mut rx) = mpsc::channel::<Vec<u8>>(10);
    let handler = PulsarHandler::on_track_only(tx);
    let mut packet = base_test_packet();
    packet.flags = Some(PacketFlags::empty());
    packet.laps_in_race = 1;
    handler.try_send_packet(&packet, Some(serialized(&packet)));
    assert!(
        rx.try_recv().is_err(),
        "Expected no message when not on track"
    );
}

#[test]
fn pulsar_handler_try_send_packet_sends_when_not_on_track() {
    let (tx, mut rx) = mpsc::channel::<Vec<u8>>(10);
    let handler = PulsarHandler::from_sender(tx);
    let mut packet = base_test_packet();
    packet.flags = Some(PacketFlags::empty());
    packet.laps_in_race = 1;
    handler.try_send_packet(&packet, Some(serialized(&packet)));
    assert!(
        rx.try_recv().is_ok(),
        "Expected message to be sent even when not on track"
    );
}

#[test]
fn pulsar_handler_try_send_packet_does_not_send_when_laps_in_race_is_zero() {
    let (tx, mut rx) = mpsc::channel::<Vec<u8>>(10);
    let handler = PulsarHandler::from_sender(tx);
    let mut packet = base_test_packet();
    packet.flags = Some(PacketFlags::car_on_track());
    packet.laps_in_race = 0;
    handler.try_send_packet(&packet, Some(serialized(&packet)));
    assert!(
        rx.try_recv().is_err(),
        "Expected no message when laps_in_race is 0"
    );
}

#[test]
fn pulsar_handler_try_send_packet_does_not_send_when_flags_is_none() {
    let (tx, mut rx) = mpsc::channel::<Vec<u8>>(10);
    let handler = PulsarHandler::from_sender(tx);
    let mut packet = base_test_packet();
    packet.flags = None;
    packet.laps_in_race = 1;
    handler.try_send_packet(&packet, Some(serialized(&packet)));
    assert!(
        rx.try_recv().is_err(),
        "Expected no message when flags is None"
    );
}

#[test]
fn kafka_handler_try_send_packet_sends_when_conditions_met() {
    let (tx, mut rx) = mpsc::channel::<Vec<u8>>(10);
    let handler = KafkaHandler::from_sender(tx);
    let mut packet = base_test_packet();
    packet.packet_id = 1;
    packet.flags = Some(PacketFlags::car_on_track());
    packet.laps_in_race = 1;
    handler.try_send_packet(&packet, Some(serialized(&packet)));
    let received_payload = rx.try_recv().ok();
    assert!(received_payload.is_some(), "Expected a message to be sent");
    if let Some(payload_bytes) = received_payload {
        let sent_packet_json = serialized(&packet);
        assert_eq!(
            payload_bytes, sent_packet_json,
            "Payload should match serialized original packet"
        );
    }
}

#[test]
fn kafka_handler_try_send_packet_does_not_send_when_paused() {
    let (tx, mut rx) = mpsc::channel::<Vec<u8>>(10);
    let handler = KafkaHandler::from_sender(tx);
    let mut packet = base_test_packet();
    packet.flags = Some(PacketFlags::car_on_track() | PacketFlags::paused());
    packet.laps_in_race = 1;
    handler.try_send_packet(&packet, Some(serialized(&packet)));
    assert!(
        rx.try_recv().is_err(),
        "Expected no message when packet is paused"
    );
}

#[test]
fn kafka_handler_try_send_packet_does_not_send_when_loading() {
    let (tx, mut rx) = mpsc::channel::<Vec<u8>>(10);
    let handler = KafkaHandler::from_sender(tx);
    let mut packet = base_test_packet();
    packet.flags = Some(PacketFlags::car_on_track() | PacketFlags::loading_or_processing());
    packet.laps_in_race = 1;
    handler.try_send_packet(&packet, Some(serialized(&packet)));
    assert!(
        rx.try_recv().is_err(),
        "Expected no message when packet is loading"
    );
}

#[test]
fn kafka_handler_try_send_packet_sends_when_not_on_track() {
    let (tx, mut rx) = mpsc::channel::<Vec<u8>>(10);
    let handler = KafkaHandler::from_sender(tx);
    let mut packet = base_test_packet();
    packet.flags = Some(PacketFlags::empty());
    packet.laps_in_race = 1;
    handler.try_send_packet(&packet, Some(serialized(&packet)));
    assert!(
        rx.try_recv().is_ok(),
        "Expected message to be sent even when not on track"
    );
}

#[test]
fn kafka_handler_try_send_packet_does_not_send_when_laps_in_race_is_zero() {
    let (tx, mut rx) = mpsc::channel::<Vec<u8>>(10);
    let handler = KafkaHandler::from_sender(tx);
    let mut packet = base_test_packet();
    packet.flags = Some(PacketFlags::car_on_track());
    packet.laps_in_race = 0;
    handler.try_send_packet(&packet, Some(serialized(&packet)));
    assert!(
        rx.try_recv().is_err(),
        "Expected no message when laps_in_race is 0"
    );
}

#[test]
fn kafka_handler_try_send_packet_does_not_send_when_flags_is_none() {
    let (tx, mut rx) = mpsc::channel::<Vec<u8>>(10);
    let handler = KafkaHandler::from_sender(tx);
    let mut packet = base_test_packet();
    packet.flags = None;
    packet.laps_in_race = 1;
    handler.try_send_packet(&packet, Some(serialized(&packet)));
    assert!(
        rx.try_recv().is_err(),
        "Expected no message when flags is None"
    );
}

fn racing_packet(id: i32) -> Packet {
    Packet {
        packet_id: id,
        flags: Some(PacketFlags::car_on_track() | PacketFlags::in_gear()),
        laps_in_race: 3,
        ..Default::default()
    }
}

#[test]
fn full_queue_drops_the_new_payload_and_keeps_the_order() {
    assert_eq!(DISPATCH_QUEUE_CAPACITY, 100);
    let (tx, mut rx) = dispatch_queue();
    assert_eq!(tx.max_capacity(), 100);
    for id in 0..100 {
        let packet = racing_packet(id);
        assert_eq!(
            try_forward(&tx, &packet, Some(serialized(&packet)), false),
            ForwardOutcome::Enqueued
        );
    }
    let late = racing_packet(100);
    assert_eq!(
        try_forward(&tx, &late, Some(serialized(&late)), false),
        ForwardOutcome::QueueFull
    );
    for id in 0..100 {
        assert_eq!(rx.try_recv().unwrap(), serialized(&racing_packet(id)));
    }
    assert!(rx.try_recv().is_err());
    assert_eq!(
        try_forward(&tx, &late, Some(serialized(&late)), false),
        ForwardOutcome::Enqueued
    );
    assert_eq!(rx.try_recv().unwrap(), serialized(&late));
}

#[test]
fn closed_queue_drops_the_payload() {
    let (tx, rx) = dispatch_queue();
    drop(rx);
    let packet = racing_packet(1);
    assert_eq!(
        try_forward(&tx, &packet, Some(serialized(&packet)), false),
        ForwardOutcome::QueueClosed
    );
    let handler = PulsarHandler::from_sender(tx);
    assert_eq!(
        handler.try_send_packet(&packet, Some(serialized(&packet))),
        ForwardOutcome::QueueClosed
    );
}

#[test]
fn each_reason_for_withholding() {
    let (tx, mut rx) = mpsc::channel::<Vec<u8>>(4);
    let payload = || Some(vec![1u8, 2, 3]);

    let mut packet = racing_packet(1);
    packet.flags = None;
    assert_eq!(try_forward(&tx, &packet, payload(), false), ForwardOutcome::MissingFlags);
    assert_eq!(try_forward(&tx, &packet, None, false), ForwardOutcome::MissingFlags);

    let mut packet = racing_packet(2);
    packet.flags = Some(PacketFlags::paused());
    assert_eq!(try_forward(&tx, &packet, payload(), false), ForwardOutcome::Held);

    let mut packet = racing_packet(3);
    packet.flags = Some(PacketFlags::car_on_track() | PacketFlags::loading_or_processing());
    assert_eq!(try_forward(&tx, &packet, payload(), false), ForwardOutcome::Held);

    let mut packet = racing_packet(4);
    packet.laps_in_race = 0;
    assert_eq!(try_forward(&tx, &packet, payload(), false), ForwardOutcome::Held);
    packet.laps_in_race = -1;
    assert_eq!(try_forward(&tx, &packet, payload(), false), ForwardOutcome::Held);

    let mut packet = racing_packet(5);
    packet.flags = Some(PacketFlags::in_gear());
    assert_eq!(try_forward(&tx, &packet, payload(), true), ForwardOutcome::Held);

    let packet = racing_packet(6);
    assert_eq!(
        try_forward(&tx, &packet, None, false),
        ForwardOutcome::SerializationFailed
    );
    assert!(rx.try_recv().is_err());

    assert_eq!(try_forward(&tx, &packet, payload(), true), ForwardOutcome::Enqueued);
    assert_eq!(rx.try_recv().unwrap(), vec![1u8, 2, 3]);
}

#[test]
fn rule_and_withhold_agree() {
    let mut packet = racing_packet(1);
    assert!(should_forward(&packet, false));
    assert!(should_forward(&packet, true));
    assert_eq!(withhold(&packet, false, true), None);
    assert_eq!(
        withhold(&packet, false, false),
        Some(ForwardOutcome::SerializationFailed)
    );

    packet.flags = Some(PacketFlags::in_gear());
    assert!(should_forward(&packet, false));
    assert!(!should_forward(&packet, true));
    assert_eq!(withhold(&packet, true, true), Some(ForwardOutcome::Held));

    packet.flags = Some(PacketFlags::all());
    assert!(!should_forward(&packet, false));
    packet.flags = None;
    assert!(!should_forward(&packet, false));
    assert_eq!(withhold(&packet, false, true), Some(ForwardOutcome::MissingFlags));

    let mut packet = racing_packet(2);
    packet.laps_in_race = 1;
    assert!(should_forward(&packet, false));
    packet.laps_in_race = 0;
    assert!(!should_forward(&packet, false));
}

#[test]
fn queue_answers_settle_to_outcomes() {
    assert_eq!(settle(QueueAnswer::Accepted), ForwardOutcome::Enqueued);
    assert_eq!(settle(QueueAnswer::Full), ForwardOutcome::QueueFull);
    assert_eq!(settle(QueueAnswer::Closed), ForwardOutcome::QueueClosed);
}

#[test]
fn live_text_is_the_payload_or_an_empty_object() {
    assert_eq!(live_text(Some("{\"packet_id\":1}".to_string())), "{\"packet_id\":1}");
    assert_eq!(live_text(Some(String::new())), "");
    assert_eq!(live_text(None), "{}");
}

#[test]
fn live_subscribers_get_every_frame_in_order() {
    let (tx, mut first) = broadcast::channel::<String>(16);
    let mut second = tx.subscribe();
    assert_eq!(publish_live(&tx, Some("one".to_string())), 2);
    assert_eq!(publish_live(&tx, None), 2);
    assert_eq!(first.try_recv().unwrap(), "one");
    assert_eq!(first.try_recv().unwrap(), "{}");
    assert_eq!(second.try_recv().unwrap(), "one");
    assert_eq!(second.try_recv().unwrap(), "{}");
    assert!(first.try_recv().is_err());
}

#[test]
fn publishing_without_subscribers_reaches_nobody() {
    let (tx, rx) = broadcast::channel::<String>(4);
    drop(rx);
    assert_eq!(publish_live(&tx, Some("lost".to_string())), 0);
    let mut late = tx.subscribe();
    assert_eq!(publish_live(&tx, Some("kept".to_string())), 1);
    assert_eq!(late.try_recv().unwrap(), "kept");
}

#[test]
fn slow_subscriber_loses_the_oldest_frames() {
    let (tx, mut rx) = broadcast::channel::<String>(2);
    for text in ["a", "b", "c"] {
        assert_eq!(publish_live(&tx, Some(text.to_string())), 1);
    }
    assert!(matches!(
        rx.try_recv(),
        Err(broadcast::error::TryRecvError::Lagged(1))
    ));
    assert_eq!(rx.try_recv().unwrap(), "b");
    assert_eq!(rx.try_recv().unwrap(), "c");
}

#[test]
fn handled_frame_reaches_broker_and_subscribers() {
    let (queue, mut broker) = dispatch_queue();
    let (live, mut viewer) = broadcast::channel::<String>(8);
    let packet = racing_packet(41);
    let json = "{\"packet_id\":41,\"driver\":\"\u{e9}\"}".to_string();

    let report = handle_packet(
        &queue,
        false,
        &live,
        &packet,
        Some(json.clone()),
        Duration::from_secs(6),
        Some(Duration::from_secs(5)),
    );
    assert_eq!(report.forwarded, ForwardOutcome::Enqueued);
    assert_eq!(report.subscribers, 1);
    assert!(report.detail_due);
    assert!(report.unmet.is_empty());
    assert_eq!(broker.try_recv().unwrap(), json.clone().into_bytes());
    assert_eq!(viewer.try_recv().unwrap(), json);
}

#[test]
fn held_frame_reaches_only_the_subscribers() {
    let (queue, mut broker) = dispatch_queue();
    let (live, mut viewer) = broadcast::channel::<String>(8);
    let mut packet = racing_packet(42);
    packet.flags = Some(PacketFlags::paused());
    packet.laps_in_race = 0;

    let handler = KafkaHandler::from_sender(queue);
    let report = handler.handle_packet(
        &live,
        &packet,
        Some("{}".to_string()),
        Duration::from_secs(1),
        Some(Duration::from_secs(5)),
    );
    assert_eq!(report.forwarded, ForwardOutcome::Held);
    assert_eq!(report.subscribers, 1);
    assert!(!report.detail_due);
    assert_eq!(
        report.unmet,
        vec![
            UnmetCondition::Paused,
            UnmetCondition::NotOnTrack,
            UnmetCondition::RaceNotStarted
        ]
    );
    assert!(broker.try_recv().is_err());
    assert_eq!(viewer.try_recv().unwrap(), "{}");
}

#[test]
fn frame_without_flags_or_json_is_still_published() {
    let (queue, mut broker) = dispatch_queue();
    let (live, mut viewer) = broadcast::channel::<String>(8);
    let mut packet = racing_packet(43);
    let handler = PulsarHandler::from_sender(queue);

    let report = handler.handle_packet(&live, &packet, None, Duration::from_secs(9), None);
    assert_eq!(report.forwarded, ForwardOutcome::SerializationFailed);
    assert!(!report.detail_due);
    assert_eq!(viewer.try_recv().unwrap(), "{}");

    packet.flags = None;
    let report = handler.handle_packet(
        &live,
        &packet,
        Some("[]".to_string()),
        Duration::ZERO,
        Some(Duration::ZERO),
    );
    assert_eq!(report.forwarded, ForwardOutcome::MissingFlags);
    assert!(report.detail_due);
    assert!(report.unmet.is_empty());
    assert_eq!(viewer.try_recv().unwrap(), "[]");
    assert!(broker.try_recv().is_err());
}

#[test]
fn channel_answers_read_as_subscriber_counts() {
    assert_eq!(subscribers_reached(None), 0);
    assert_eq!(subscribers_reached(Some(1)), 1);
    assert_eq!(subscribers_reached(Some(37)), 37);
    assert_eq!(subscribers_reached(Some(usize::MAX)), usize::MAX);
}
