use dehneevse_mqtt_bridge::mqtt_handler::{
    handle_mqtt, LinkOperation, LinkPhase, MqttAction, MqttEvent, MqttLink, BACKOFF_SECONDS,
    BUS_CAPACITY,
};
use dehneevse_mqtt_bridge::protocol::{MqttMessage, MqttMessageType};

fn ping(client_id: &str) -> MqttMessage {
    MqttMessage {
        message_type: MqttMessageType::request_ping,
        client_id: client_id.to_string(),
        handshake: None,
        firmware: None,
        pwm_percent: None,
        contactor_state: None,
        measurements: None,
    }
}

fn subscribed_link() -> MqttLink {
    let mut link = MqttLink::new();
    handle_mqtt(&mut link, MqttEvent::Started);
    handle_mqtt(&mut link, MqttEvent::ConnectDone(true));
    handle_mqtt(&mut link, MqttEvent::SubscribeDone(true));
    assert_eq!(link.phase, LinkPhase::Subscribed);
    link
}

fn every_event() -> Vec<MqttEvent> {
    vec![
        MqttEvent::Started,
        MqttEvent::ConnectDone(true),
        MqttEvent::ConnectDone(false),
        MqttEvent::SubscribeDone(true),
        MqttEvent::SubscribeDone(false),
        MqttEvent::BackoffOver,
        MqttEvent::FromDevice(Some("{}".to_string())),
        MqttEvent::FromDevice(None),
        MqttEvent::BusLagged,
        MqttEvent::PublishDone(true),
        MqttEvent::PublishDone(false),
        MqttEvent::FromBroker(Some(ping("X"))),
        MqttEvent::FromBroker(None),
        MqttEvent::ReceiveFailed { still_connected: true },
        MqttEvent::ReceiveFailed { still_connected: false },
        MqttEvent::ConnectionLost,
        MqttEvent::Shutdown,
    ]
}

#[test]
fn constants_are_the_documented_ones() {
    assert_eq!(BACKOFF_SECONDS, 10);
    assert_eq!(BUS_CAPACITY, 32);
}

#[test]
fn fresh_link_waits_for_its_start() {
    let mut link = MqttLink::new();
    assert_eq!(
        link,
        MqttLink { phase: LinkPhase::Disconnected, reconnect_pending: false, publishing: false }
    );
    assert_eq!(link.operation(), LinkOperation::Wait);
    assert!(!link.takes_from_bus());
    assert!(!link.takes_from_broker());
    assert_eq!(handle_mqtt(&mut link, MqttEvent::Started), MqttAction::Idle);
    assert_eq!(link.phase, LinkPhase::Connecting);
    assert_eq!(link.operation(), LinkOperation::Connect);
}

#[test]
fn connects_then_subscribes_then_relays() {
    let mut link = MqttLink::new();
    handle_mqtt(&mut link, MqttEvent::Started);
    assert_eq!(handle_mqtt(&mut link, MqttEvent::ConnectDone(true)), MqttAction::Idle);
    assert_eq!(link.phase, LinkPhase::Subscribing);
    assert_eq!(link.operation(), LinkOperation::Subscribe);
    assert!(!link.takes_from_bus());
    assert!(!link.takes_from_broker());
    assert_eq!(handle_mqtt(&mut link, MqttEvent::SubscribeDone(true)), MqttAction::Idle);
    assert_eq!(link.phase, LinkPhase::Subscribed);
    assert_eq!(link.operation(), LinkOperation::Wait);
    assert!(link.takes_from_bus());
    assert!(link.takes_from_broker());
}

#[test]
fn connect_failure_backs_off_then_reconnects_once() {
    let mut link = MqttLink::new();
    handle_mqtt(&mut link, MqttEvent::Started);
    for _ in 0..3 {
        assert_eq!(handle_mqtt(&mut link, MqttEvent::ConnectDone(false)), MqttAction::Idle);
        assert_eq!(link.phase, LinkPhase::Backoff);
        assert!(link.reconnect_pending);
        assert_eq!(link.operation(), LinkOperation::BackOff(10));
        assert!(!link.takes_from_bus());
        assert!(!link.takes_from_broker());

        assert_eq!(handle_mqtt(&mut link, MqttEvent::BackoffOver), MqttAction::Idle);
        assert_eq!(link.phase, LinkPhase::Connecting);
        assert_eq!(link.operation(), LinkOperation::Reconnect);
        // The attempt is under way; nothing starts another one.
        assert_eq!(handle_mqtt(&mut link, MqttEvent::BackoffOver), MqttAction::Idle);
        assert_eq!(link.phase, LinkPhase::Connecting);
    }
    assert_eq!(handle_mqtt(&mut link, MqttEvent::ConnectDone(true)), MqttAction::Idle);
    assert_eq!(link.phase, LinkPhase::Subscribing);
    assert!(!link.reconnect_pending);
}

#[test]
fn backoff_is_quiet() {
    for event in every_event() {
        let mut link = MqttLink::new();
        handle_mqtt(&mut link, MqttEvent::Started);
        handle_mqtt(&mut link, MqttEvent::ConnectDone(false));
        let before = link;
        let action = handle_mqtt(&mut link, event.clone());
        match event {
            MqttEvent::BackoffOver => {
                assert_eq!(action, MqttAction::Idle);
                assert_eq!(link.phase, LinkPhase::Connecting);
            }
            MqttEvent::Shutdown => {
                assert_eq!(action, MqttAction::Exit);
                assert_eq!(link.phase, LinkPhase::Stopped);
            }
            _ => {
                assert_eq!(action, MqttAction::Idle);
                assert_eq!(link, before);
            }
        }
    }
}

#[test]
fn subscribe_failure_disconnects_and_backs_off() {
    let mut link = MqttLink::new();
    handle_mqtt(&mut link, MqttEvent::Started);
    handle_mqtt(&mut link, MqttEvent::ConnectDone(true));
    assert_eq!(handle_mqtt(&mut link, MqttEvent::SubscribeDone(false)), MqttAction::Disconnect);
    assert_eq!(link.phase, LinkPhase::Backoff);
    assert!(link.reconnect_pending);
    handle_mqtt(&mut link, MqttEvent::BackoffOver);
    assert_eq!(link.operation(), LinkOperation::Reconnect);
    handle_mqtt(&mut link, MqttEvent::ConnectDone(true));
    assert_eq!(link.operation(), LinkOperation::Subscribe);
}

#[test]
fn one_publish_in_flight() {
    let mut link = subscribed_link();
    assert_eq!(
        handle_mqtt(&mut link, MqttEvent::FromDevice(Some("{\"a\":1}".to_string()))),
        MqttAction::Publish("{\"a\":1}".to_string())
    );
    assert!(link.publish_in_flight());
    assert!(!link.takes_from_bus());
    assert!(link.takes_from_broker());

    // A message handed over all the same is not published beside the first.
    assert_eq!(
        handle_mqtt(&mut link, MqttEvent::FromDevice(Some("{\"a\":2}".to_string()))),
        MqttAction::Idle
    );
    assert!(link.publish_in_flight());

    assert_eq!(handle_mqtt(&mut link, MqttEvent::PublishDone(false)), MqttAction::Idle);
    assert!(!link.publish_in_flight());
    assert!(link.takes_from_bus());
    assert_eq!(link.phase, LinkPhase::Subscribed);

    assert_eq!(
        handle_mqtt(&mut link, MqttEvent::FromDevice(Some("{\"a\":2}".to_string()))),
        MqttAction::Publish("{\"a\":2}".to_string())
    );
}

#[test]
fn broker_messages_are_forwarded_while_subscribed() {
    let mut link = subscribed_link();
    assert_eq!(
        handle_mqtt(&mut link, MqttEvent::FromBroker(Some(ping("X")))),
        MqttAction::Forward(ping("X"))
    );
    assert_eq!(link.phase, LinkPhase::Subscribed);

    let mut link = MqttLink::new();
    handle_mqtt(&mut link, MqttEvent::Started);
    handle_mqtt(&mut link, MqttEvent::ConnectDone(true));
    assert_eq!(handle_mqtt(&mut link, MqttEvent::FromBroker(Some(ping("X")))), MqttAction::Idle);
}

#[test]
fn malformed_payloads_are_dropped() {
    let mut link = subscribed_link();
    let before = link;
    assert_eq!(handle_mqtt(&mut link, MqttEvent::FromBroker(None)), MqttAction::Idle);
    assert_eq!(handle_mqtt(&mut link, MqttEvent::FromDevice(None)), MqttAction::Idle);
    assert_eq!(handle_mqtt(&mut link, MqttEvent::BusLagged), MqttAction::Idle);
    assert_eq!(link, before);
}

#[test]
fn lost_connection_backs_off() {
    for event in [MqttEvent::ConnectionLost, MqttEvent::ReceiveFailed { still_connected: false }] {
        let mut link = subscribed_link();
        assert_eq!(handle_mqtt(&mut link, event.clone()), MqttAction::Idle);
        assert_eq!(link.phase, LinkPhase::Backoff);
        assert!(link.reconnect_pending);
        assert_eq!(link.operation(), LinkOperation::BackOff(10));

        let mut link = MqttLink::new();
        handle_mqtt(&mut link, MqttEvent::Started);
        handle_mqtt(&mut link, MqttEvent::ConnectDone(true));
        assert_eq!(handle_mqtt(&mut link, event), MqttAction::Idle);
        assert_eq!(link.phase, LinkPhase::Backoff);
    }
    let mut link = subscribed_link();
    assert_eq!(
        handle_mqtt(&mut link, MqttEvent::ReceiveFailed { still_connected: true }),
        MqttAction::Idle
    );
    assert_eq!(link.phase, LinkPhase::Subscribed);
}

#[test]
fn publish_in_flight_survives_a_lost_connection() {
    let mut link = subscribed_link();
    handle_mqtt(&mut link, MqttEvent::FromDevice(Some("{}".to_string())));
    handle_mqtt(&mut link, MqttEvent::ConnectionLost);
    assert_eq!(link.phase, LinkPhase::Backoff);
    assert!(link.publish_in_flight());
    assert_eq!(handle_mqtt(&mut link, MqttEvent::PublishDone(false)), MqttAction::Idle);
    assert!(!link.publish_in_flight());
    assert_eq!(link.phase, LinkPhase::Backoff);
}

#[test]
fn shutdown_exits_at_once_without_a_publish() {
    for events in [
        vec![],
        vec![MqttEvent::Started],
        vec![MqttEvent::Started, MqttEvent::ConnectDone(false)],
        vec![MqttEvent::Started, MqttEvent::ConnectDone(true)],
        vec![MqttEvent::Started, MqttEvent::ConnectDone(true), MqttEvent::SubscribeDone(true)],
    ] {
        let mut link = MqttLink::new();
        for event in events {
            handle_mqtt(&mut link, event);
        }
        assert_eq!(handle_mqtt(&mut link, MqttEvent::Shutdown), MqttAction::Exit);
        assert!(link.is_stopped());
        assert_eq!(link.operation(), LinkOperation::Wait);
        assert!(!link.takes_from_bus());
        assert!(!link.takes_from_broker());
    }
}

#[test]
fn shutdown_waits_for_the_publish_in_flight() {
    for ok in [true, false] {
        let mut link = subscribed_link();
        handle_mqtt(&mut link, MqttEvent::FromDevice(Some("{}".to_string())));
        assert_eq!(handle_mqtt(&mut link, MqttEvent::Shutdown), MqttAction::Idle);
        assert_eq!(link.phase, LinkPhase::Draining);
        assert!(!link.is_stopped());
        assert_eq!(link.operation(), LinkOperation::Wait);
        assert!(!link.takes_from_bus());
        assert!(!link.takes_from_broker());
        for event in every_event() {
            if let MqttEvent::PublishDone(_) = event {
                continue;
            }
            assert_eq!(handle_mqtt(&mut link, event), MqttAction::Idle);
            assert_eq!(link.phase, LinkPhase::Draining);
        }
        assert_eq!(handle_mqtt(&mut link, MqttEvent::PublishDone(ok)), MqttAction::Exit);
        assert!(link.is_stopped());
        assert!(!link.publish_in_flight());
    }
}

#[test]
fn stopped_link_stays_stopped_and_exits_once() {
    let mut link = subscribed_link();
    let mut exits = 0;
    let mut events = vec![MqttEvent::Shutdown];
    events.extend(every_event());
    for event in events {
        if handle_mqtt(&mut link, event) == MqttAction::Exit {
            exits += 1;
        }
        assert!(link.is_stopped());
    }
    assert_eq!(exits, 1);
}
