use homeassistant_agent::connector::{Action, Event, Phase, QoS, Session, RECONNECT_DELAY_SECS};

fn publish(topic: &str, payload: &[u8], qos: QoS) -> Event {
    Event::Publish { topic: topic.to_string(), payload: payload.to_vec(), qos }
}

#[test]
fn connack_subscribes_to_status_topic() {
    let mut s = Session::new("homeassistant", None);
    assert!(s.awaits_event());
    assert_eq!(
        s.on_event(Event::ConnAck),
        Action::Subscribe { topic: "homeassistant/status".to_string(), qos: QoS::AtLeastOnce }
    );
    assert_eq!(s.on_outcome(true), Action::Connected(true));
    assert_eq!(s.on_outcome(true), Action::Poll);
    assert!(s.awaits_event());
}

#[test]
fn failed_status_subscription_forces_disconnect() {
    let mut s = Session::new("homeassistant", None);
    assert!(matches!(s.on_event(Event::ConnAck), Action::Subscribe { .. }));
    assert_eq!(s.on_outcome(false), Action::Disconnect);
    assert_eq!(s.current_phase(), Phase::ForcingDisconnect { then_notify: true });
    assert_eq!(s.on_outcome(true), Action::Connected(true));
    assert_eq!(s.on_outcome(true), Action::Poll);
    assert_eq!(s.on_event(Event::Disconnect), Action::Connected(false));
    assert_eq!(s.on_outcome(true), Action::Poll);
}

#[test]
fn failed_forced_disconnect_aborts() {
    let mut s = Session::new("homeassistant", None);
    s.on_event(Event::ConnAck);
    assert_eq!(s.on_outcome(false), Action::Disconnect);
    assert_eq!(s.on_outcome(false), Action::Abort);
    assert!(s.is_finished());
}

#[test]
fn availability_marker_after_connect() {
    let mut s = Session::new("ha", Some("dev/avail".to_string()));
    s.on_event(Event::ConnAck);
    assert_eq!(s.on_outcome(true), Action::Connected(true));
    assert_eq!(
        s.on_outcome(true),
        Action::Publish {
            topic: "dev/avail".to_string(),
            payload: b"online".to_vec(),
            qos: QoS::AtLeastOnce,
            retain: true,
        }
    );
    assert_eq!(s.on_outcome(false), Action::Disconnect);
    assert_eq!(s.on_outcome(true), Action::Poll);
}

#[test]
fn status_online_triggers_restart() {
    let mut s = Session::new("homeassistant", None);
    assert_eq!(
        s.on_event(publish("homeassistant/status", b"online", QoS::AtLeastOnce)),
        Action::Restarted
    );
    assert_eq!(s.on_outcome(true), Action::Poll);
    assert_eq!(
        s.on_event(publish("homeassistant/status", b"offline", QoS::AtLeastOnce)),
        Action::Poll
    );
}

#[test]
fn message_topic_is_stripped_of_prefix() {
    let mut s = Session::new("homeassistant", None);
    assert_eq!(
        s.on_event(publish("homeassistant/switch/lamp/set", b"ON", QoS::AtLeastOnce)),
        Action::Message { topic: "switch/lamp/set".to_string(), payload: b"ON".to_vec() }
    );
    assert_eq!(s.on_outcome(true), Action::Poll);
}

#[test]
fn message_outside_namespace_is_skipped() {
    let mut s = Session::new("homeassistant", None);
    assert_eq!(s.on_event(publish("other/switch/set", b"ON", QoS::AtLeastOnce)), Action::Poll);
    assert_eq!(s.on_event(publish("homeassistant", b"ON", QoS::AtLeastOnce)), Action::Poll);
    assert_eq!(s.on_event(publish("homeassistantx/a", b"ON", QoS::AtLeastOnce)), Action::Poll);
    assert!(s.awaits_event());
}

#[test]
fn best_effort_message_failure_is_ignored() {
    let mut s = Session::new("ha", None);
    assert!(matches!(
        s.on_event(publish("ha/x", b"1", QoS::AtMostOnce)),
        Action::Message { .. }
    ));
    assert_eq!(s.on_outcome(false), Action::Poll);
}

#[test]
fn guaranteed_message_failure_disconnects() {
    for qos in [QoS::AtLeastOnce, QoS::ExactlyOnce] {
        let mut s = Session::new("ha", None);
        assert!(matches!(s.on_event(publish("ha/x", b"1", qos)), Action::Message { .. }));
        assert_eq!(s.on_outcome(false), Action::Disconnect);
        assert_eq!(s.on_outcome(true), Action::Poll);
    }
}

#[test]
fn poll_failure_notifies_and_sleeps() {
    let mut s = Session::new("ha", None);
    assert_eq!(s.on_event(Event::PollFailed), Action::Connected(false));
    assert_eq!(s.on_outcome(true), Action::Sleep { secs: RECONNECT_DELAY_SECS });
    assert_eq!(RECONNECT_DELAY_SECS, 5);
    assert_eq!(s.on_outcome(true), Action::Poll);
}

#[test]
fn lifecycle_callback_failure_stops() {
    let mut s = Session::new("ha", None);
    assert_eq!(s.on_event(Event::Disconnect), Action::Connected(false));
    assert_eq!(s.on_outcome(false), Action::Stop);
    assert!(s.is_finished());

    let mut s = Session::new("ha", None);
    s.on_event(publish("ha/status", b"online", QoS::AtMostOnce));
    assert_eq!(s.on_outcome(false), Action::Stop);

    let mut s = Session::new("ha", None);
    s.on_event(Event::ConnAck);
    s.on_outcome(true);
    assert_eq!(s.on_outcome(false), Action::Stop);
}

#[test]
fn other_events_keep_polling() {
    let mut s = Session::new("ha", None);
    assert_eq!(s.on_event(Event::Other), Action::Poll);
    assert_eq!(s.current_phase(), Phase::Polling);
}
