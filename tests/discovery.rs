use homeassistant_agent::model::{
    Availability, AvailabilityMode, BinarySensorClass, Component, Device, DeviceId, Discovery,
    Field, Leaf, Member, StateClass, Value,
};

fn member(key: &'static str, value: Value) -> Member {
    Member { key, value }
}

fn text(s: &str) -> Leaf {
    Leaf::Text(s.to_string())
}

fn keys(members: &[Member]) -> Vec<&'static str> {
    members.iter().map(|m| m.key).collect()
}

#[test]
fn test_serde() {
    let doc = Discovery {
        device: Some(Device {
            identifiers: vec!["test-id1".into()],
            name: Some("Test Device 1".to_string()),
            base_topic: None,
            sw_version: None,
            support_url: None,
        }),
        device_class: Some("motion".to_string()),
        state_topic: Some("some/topic".to_string()),
        ..Default::default()
    };
    assert_eq!(
        doc.encode(),
        vec![
            member("name", Value::Leaf(Leaf::Null)),
            member(
                "device",
                Value::Object(vec![
                    Field { key: "identifiers", value: Leaf::TextList(vec!["test-id1".to_string()]) },
                    Field { key: "name", value: text("Test Device 1") },
                ])
            ),
            member("device_class", Value::Leaf(text("motion"))),
            member("state_topic", Value::Leaf(text("some/topic"))),
        ]
    );
}

#[test]
fn empty_document_keeps_name_and_device_class() {
    let doc = Discovery::default();
    assert_eq!(
        doc.encode(),
        vec![
            member("name", Value::Leaf(Leaf::Null)),
            member("device_class", Value::Leaf(Leaf::Null)),
        ]
    );
}

#[test]
fn full_document() {
    let doc = Discovery {
        name: Some("Lamp".into()),
        unique_id: Some("lamp-1".into()),
        device: None,
        device_class: Some("outlet".into()),
        state_class: Some(StateClass::TotalIncreasing),
        command_topic: Some("c".into()),
        command_template: Some("ct".into()),
        state_topic: Some("s".into()),
        unit_of_measurement: Some("W".into()),
        value_template: Some("vt".into()),
        enabled_by_default: Some(false),
        availability_mode: AvailabilityMode::Any,
        availability: vec![Availability::new("a/t").payload_available("up")],
    };
    let members = doc.encode();
    assert_eq!(
        keys(&members),
        vec![
            "name",
            "unique_id",
            "device_class",
            "state_class",
            "command_topic",
            "command_template",
            "state_topic",
            "unit_of_measurement",
            "value_template",
            "enabled_by_default",
            "availability_mode",
            "availability",
        ]
    );
    assert_eq!(members[3], member("state_class", Value::Leaf(text("total_increasing"))));
    assert_eq!(members[9], member("enabled_by_default", Value::Leaf(Leaf::Bool(false))));
    assert_eq!(members[10], member("availability_mode", Value::Leaf(text("any"))));
    assert_eq!(
        members[11],
        member(
            "availability",
            Value::ObjectList(vec![vec![
                Field { key: "topic", value: text("a/t") },
                Field { key: "payload_available", value: text("up") },
            ]])
        )
    );
}

#[test]
fn default_availability_mode_is_omitted() {
    let latest = Discovery { availability_mode: AvailabilityMode::Latest, ..Default::default() };
    assert!(!keys(&latest.encode()).contains(&"availability_mode"));
    for (mode, name) in [(AvailabilityMode::All, "all"), (AvailabilityMode::Any, "any")] {
        let doc = Discovery { availability_mode: mode, ..Default::default() };
        let members = doc.encode();
        assert!(members.contains(&member("availability_mode", Value::Leaf(text(name)))));
    }
    assert_eq!(AvailabilityMode::default(), AvailabilityMode::Latest);
}

#[test]
fn empty_availability_list_is_omitted() {
    let doc = Discovery { availability: vec![], ..Default::default() };
    assert!(!keys(&doc.encode()).contains(&"availability"));
}

#[test]
fn device_encoding() {
    let bare = Device {
        identifiers: vec![],
        name: None,
        base_topic: None,
        sw_version: None,
        support_url: None,
    };
    assert_eq!(bare.encode(), vec![]);

    let full = Device {
        identifiers: vec!["a".into(), "b".into()],
        name: Some("D".into()),
        base_topic: Some("base".into()),
        sw_version: Some("1.0".into()),
        support_url: Some("http://x".into()),
    };
    assert_eq!(
        full.encode(),
        vec![
            Field { key: "identifiers", value: Leaf::TextList(vec!["a".into(), "b".into()]) },
            Field { key: "name", value: text("D") },
            Field { key: "~", value: text("base") },
            Field { key: "sw_version", value: text("1.0") },
            Field { key: "support_url", value: text("http://x") },
        ]
    );
}

#[test]
fn availability_builders() {
    let a = Availability::new("t")
        .payload_available("on")
        .payload_not_available("off")
        .value_template("{{ value }}");
    assert_eq!(a.topic, "t");
    assert_eq!(a.payload_available.as_deref(), Some("on"));
    assert_eq!(a.payload_not_available.as_deref(), Some("off"));
    assert_eq!(a.value_template.as_deref(), Some("{{ value }}"));
    assert_eq!(
        a.encode(),
        vec![
            Field { key: "topic", value: text("t") },
            Field { key: "payload_available", value: text("on") },
            Field { key: "payload_not_available", value: text("off") },
            Field { key: "value_template", value: text("{{ value }}") },
        ]
    );
    assert_eq!(Availability::new("t").encode(), vec![Field { key: "topic", value: text("t") }]);
}

#[test]
fn state_class_names() {
    assert_eq!(StateClass::Measurement.as_ref(), "measurement");
    assert_eq!(StateClass::Total.as_ref(), "total");
    assert_eq!(StateClass::TotalIncreasing.as_ref(), "total_increasing");
}

#[test]
fn end_to_end_motion_sensor() {
    let id = DeviceId::new("motion-1", Component::BinarySensor);
    assert_eq!(id.discovery_topic("homeassistant"), "homeassistant/binary_sensor/motion-1/config");
    let device = Device {
        identifiers: vec![],
        name: Some("Hallway".into()),
        base_topic: None,
        sw_version: None,
        support_url: None,
    };
    let class = Some(BinarySensorClass::Motion.as_ref().to_string());
    let doc = Discovery::for_entity(&id, "homeassistant", device, class);
    assert_eq!(doc.unique_id.as_deref(), Some("motion-1"));
    assert_eq!(doc.state_topic.as_deref(), Some("homeassistant/binary_sensor/motion-1/state"));
    assert_eq!(doc.command_topic, None);
    let members = doc.encode();
    assert!(members.contains(&member("device_class", Value::Leaf(text("motion")))));
    assert!(members.contains(&member(
        "device",
        Value::Object(vec![Field { key: "name", value: text("Hallway") }])
    )));
    assert!(keys(&members).contains(&"state_topic"));
    assert!(!keys(&members).contains(&"command_topic"));
}

#[test]
fn switch_document_has_command_topic() {
    let id = DeviceId::new("plug", Component::Switch);
    let device = Device {
        identifiers: vec!["dev".into()],
        name: None,
        base_topic: None,
        sw_version: None,
        support_url: None,
    };
    let doc = Discovery::for_entity(&id, "ha", device, None);
    assert_eq!(doc.command_topic.as_deref(), Some("ha/switch/plug/set"));
    assert_eq!(doc.state_topic.as_deref(), Some("ha/switch/plug/state"));
}
