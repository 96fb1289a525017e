use homeassistant_agent::connector::{
    default_keep_alive, random_client_id, AvailabilityOptions, ConnectorOptions, QoS,
};

#[test]
fn defaults() {
    let o = ConnectorOptions::new("broker");
    assert_eq!(o.host, "broker");
    assert_eq!(o.base_topic(), "homeassistant");
    assert_eq!(o.effective_port(), 8883);
    assert!(o.use_tls());
    assert_eq!(o.keep_alive, 5);
    assert_eq!(default_keep_alive(), 5);
    assert_eq!(o.credentials(), None);
}

#[test]
fn port_follows_tls() {
    let mut o = ConnectorOptions::new("broker");
    o.disable_tls = true;
    assert_eq!(o.effective_port(), 1883);
    assert!(!o.use_tls());
    o.port = Some(1234);
    assert_eq!(o.effective_port(), 1234);
}

#[test]
fn configured_values_win() {
    let mut o = ConnectorOptions::new("broker");
    o.topic_base = Some("custom".into());
    o.client_id = Some("me".into());
    assert_eq!(o.base_topic(), "custom");
    assert_eq!(o.effective_client_id(), "me");
}

#[test]
fn random_client_ids() {
    let id = random_client_id();
    assert_eq!(id.chars().count(), 23);
    assert!(id.chars().all(|c| c.is_ascii_alphanumeric()));
    let o = ConnectorOptions::new("broker");
    let generated = o.effective_client_id();
    assert_eq!(generated.len(), 23);
    assert!(generated.chars().all(|c| c.is_ascii_alphanumeric()));
}

#[test]
fn credentials() {
    let mut o = ConnectorOptions::new("broker");
    o.username = Some("user".into());
    assert_eq!(o.credentials(), Some(("user".to_string(), String::new())));
    o.password = Some("SECRET-REDACTED".into());
    assert_eq!(o.credentials(), Some(("user".to_string(), "SECRET-REDACTED".to_string())));
    o.username = None;
    assert_eq!(o.credentials(), None);
}

#[test]
fn last_will_is_retained_offline() {
    let a = AvailabilityOptions::new("dev/avail");
    let w = a.last_will();
    assert_eq!(w.topic, "dev/avail");
    assert_eq!(w.message, b"offline".to_vec());
    assert_eq!(w.qos, QoS::AtLeastOnce);
    assert!(w.retain);
}
