use homeassistant_agent::model::{
    prefixed_topic, BinarySensorClass, ButtonClass, Component, DeviceId, SensorClass, SwitchClass,
};

#[test]
fn component_names() {
    assert_eq!(Component::BinarySensor.as_ref(), "binary_sensor");
    assert_eq!(Component::Button.as_ref(), "button");
    assert_eq!(Component::Sensor.as_ref(), "sensor");
    assert_eq!(Component::Switch.as_ref(), "switch");
    assert_eq!(Component::Switch.to_string(), "switch");
}

#[test]
fn device_class_names() {
    assert_eq!(ButtonClass::Identify.as_ref(), "identify");
    assert_eq!(ButtonClass::Restart.as_ref(), "restart");
    assert_eq!(ButtonClass::Update.as_ref(), "update");
    assert_eq!(BinarySensorClass::Motion.as_ref(), "motion");
    assert_eq!(SwitchClass::Outlet.as_ref(), "outlet");
    assert_eq!(SwitchClass::Switch.as_ref(), "switch");
    assert_eq!(SensorClass::ApparentPower.as_ref(), "apparent_power");
    assert_eq!(SensorClass::Co2.as_ref(), "carbon_dioxide");
    assert_eq!(SensorClass::Co.as_ref(), "carbon_monoxide");
    assert_eq!(SensorClass::Pm25.as_ref(), "pm25");
    assert_eq!(SensorClass::Temperature.as_ref(), "temperature");
    assert_eq!(SensorClass::VolumeFlowRate.as_ref(), "volume_flow_rate");
}

#[test]
fn config_topic_without_node_id() {
    let id = DeviceId::new("motion-1", Component::BinarySensor);
    assert_eq!(id.config_topic(), "binary_sensor/motion-1/config");
    assert_eq!(id.node_id, None);
}

#[test]
fn config_topic_with_node_id() {
    let id = DeviceId::with_node_id("lamp", Component::Switch, "kitchen");
    assert_eq!(id.config_topic(), "switch/kitchen/lamp/config");
    assert_eq!(id.state_topic().as_deref(), Some("switch/kitchen/lamp/state"));
    assert_eq!(id.command_topic().as_deref(), Some("switch/kitchen/lamp/set"));
}

#[test]
fn topics_follow_component_capabilities() {
    let sensor = DeviceId::new("temp", Component::Sensor);
    assert_eq!(sensor.state_topic().as_deref(), Some("sensor/temp/state"));
    assert_eq!(sensor.command_topic(), None);

    let button = DeviceId::new("reboot", Component::Button);
    assert_eq!(button.state_topic(), None);
    assert_eq!(button.command_topic().as_deref(), Some("button/reboot/set"));

    let motion = DeviceId::new("m", Component::BinarySensor);
    assert_eq!(motion.state_topic().as_deref(), Some("binary_sensor/m/state"));
    assert_eq!(motion.command_topic(), None);
}

#[test]
fn topics_are_deterministic() {
    let a = DeviceId::with_node_id("x", Component::Sensor, "n");
    let b = DeviceId::with_node_id("x", Component::Sensor, "n");
    assert_eq!(a.config_topic(), b.config_topic());
    assert_eq!(a.discovery_topic("pre"), b.discovery_topic("pre"));
    assert_eq!(a.state_topic(), a.state_topic());
    assert_eq!(a.discovery_topic("pre"), "pre/sensor/n/x/config");
}

#[test]
fn node_id_adds_one_separator() {
    let with = DeviceId::with_node_id("entity", Component::Sensor, "node").config_topic();
    let without = DeviceId::new("entity", Component::Sensor).config_topic();
    assert_eq!(with.matches('/').count(), without.matches('/').count() + 1);
    assert!(with.contains("node/entity"));
    assert!(!without.contains("//"));
}

#[test]
fn prefixed_topics() {
    assert_eq!(prefixed_topic("homeassistant", "status"), "homeassistant/status");
    assert_eq!(prefixed_topic("", "a"), "/a");
}

#[test]
fn end_to_end_discovery_topic() {
    let id = DeviceId::new("motion-1", Component::BinarySensor);
    assert_eq!(id.discovery_topic("homeassistant"), "homeassistant/binary_sensor/motion-1/config");
}

#[test]
fn sensor_class_from_name() {
    assert_eq!(SensorClass::from_name("carbon_dioxide"), Some(SensorClass::Co2));
    assert_eq!(SensorClass::from_name("pm25"), Some(SensorClass::Pm25));
    assert_eq!(SensorClass::from_name("wind_speed"), Some(SensorClass::WindSpeed));
    assert_eq!(SensorClass::from_name("co2"), None);
    assert_eq!(SensorClass::from_name(""), None);
    assert_eq!(SensorClass::from_name("Temperature"), None);
}

#[test]
fn sensor_class_names_round_trip() {
    let names = SensorClass::variant_names();
    let all = SensorClass::all();
    assert_eq!(names.len(), 51);
    assert_eq!(all.len(), names.len());
    assert_eq!(names[0], "apparent_power");
    for (class, name) in all.iter().zip(names.iter()) {
        assert_eq!(class.as_ref(), *name);
        assert_eq!(SensorClass::from_name(name), Some(*class));
    }
}
