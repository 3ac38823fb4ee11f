use govee2mqtt::hass_mqtt::capability_mode::{
    mode_capability_display_name, mode_label_for_platform_value, mode_option_labels,
    mode_value_for_label, mqtt_capability_mode_command, CapabilityModeSelect, ModeError,
};
use govee2mqtt::platform_api::{
    DeviceCapability, DeviceCapabilityKind, DeviceCapabilityState, DeviceParameters, EnumOption,
    HttpDeviceInfo, HttpDeviceState,
};
use govee2mqtt::service::device::Device;
use serde_json::Value as JsonValue;
use std::collections::HashMap;

fn option(name: &str, value: JsonValue) -> EnumOption {
    EnumOption {
        name: name.to_string(),
        value,
        extras: HashMap::new(),
    }
}

fn mode_cap(instance: &str, options: Vec<EnumOption>) -> DeviceCapability {
    DeviceCapability {
        kind: DeviceCapabilityKind::Mode,
        instance: instance.to_string(),
        parameters: Some(DeviceParameters::Enum { options }),
        alarm_type: None,
        event_state: None,
    }
}

fn h1310_fan_speed_cap() -> DeviceCapability {
    mode_cap(
        "fanSpeedMode",
        (1..=6)
            .map(|n| option(&format!("Speed {n}"), JsonValue::from(n)))
            .collect(),
    )
}

fn fan_with(caps: Vec<DeviceCapability>) -> Device {
    let mut device = Device::new("H1310", "47:64:F8:9C:BD:BC:DF:4A");
    device.set_http_device_info(HttpDeviceInfo {
        sku: "H1310".to_string(),
        device: "47:64:F8:9C:BD:BC:DF:4A".to_string(),
        device_name: "Ceiling Fan".to_string(),
        capabilities: caps,
    });
    device
}

fn report(device: &mut Device, instance: &str, value: JsonValue) {
    let mut state = serde_json::Map::new();
    state.insert("value".to_string(), value);
    device.set_http_device_state(HttpDeviceState {
        sku: device.sku.clone(),
        device: device.id.clone(),
        capabilities: vec![DeviceCapabilityState {
            kind: DeviceCapabilityKind::Mode,
            instance: instance.to_string(),
            state: JsonValue::Object(state),
        }],
    });
}

fn shown(select: &CapabilityModeSelect, device: &Device) -> Option<(String, String)> {
    select
        .notify_state(device)
        .unwrap()
        .map(|message| (message.topic, message.payload))
}

#[test]
fn mode_label_value_roundtrip() {
    let cap = h1310_fan_speed_cap();
    assert_eq!(mode_option_labels(&cap).len(), 6);
    let value = mode_value_for_label(&cap, "Speed 3").unwrap();
    assert_eq!(value, JsonValue::from(3));
    let label = mode_label_for_platform_value(&cap, &JsonValue::from(3)).unwrap();
    assert_eq!(label, "Speed 3");
    assert!(mode_label_for_platform_value(&cap, &JsonValue::from("")).is_none());
}

#[test]
fn fan_speed_display_name() {
    assert_eq!(mode_capability_display_name("fanSpeedMode"), "Fan Speed");
}

#[test]
fn other_display_names_are_spaced_words() {
    assert_eq!(mode_capability_display_name("nightlightScene"), "Nightlight Scene");
    assert_eq!(mode_capability_display_name(""), "");
}

#[test]
fn h1310_fan_speed_mode_from_metadata() {
    let device = fan_with(vec![
        mode_cap("lightScene", vec![option("Sunrise", JsonValue::from(1))]),
        h1310_fan_speed_cap(),
    ]);
    let info = device.http_device_info.as_ref().unwrap();
    let cap = info.capability_by_instance("fanSpeedMode").unwrap();
    assert_eq!(cap.kind, DeviceCapabilityKind::Mode);
    assert_eq!(
        format!("{:?}", mode_option_labels(cap)),
        r#"["Speed 1", "Speed 2", "Speed 3", "Speed 4", "Speed 5", "Speed 6"]"#
    );
}

/// Mode capabilities are exposed as a select for every device, not just
/// H1310/H1370.
#[test]
fn h7131_nightlight_scene_mode_capability_is_usable() {
    let labels = ["Flame", "Rainbow", "Rhythm", "Easy", "Sleep"];
    let info = HttpDeviceInfo {
        sku: "H7131".to_string(),
        device: "some-heater".to_string(),
        device_name: "Heater".to_string(),
        capabilities: vec![
            mode_cap("workMode", vec![]),
            mode_cap(
                "nightlightScene",
                labels
                    .iter()
                    .enumerate()
                    .map(|(i, label)| option(label, JsonValue::from(i + 1)))
                    .collect(),
            ),
        ],
    };
    let cap = info
        .capability_by_instance("nightlightScene")
        .expect("nightlightScene capability");
    assert_eq!(cap.kind, DeviceCapabilityKind::Mode);

    let labels = mode_option_labels(cap);
    assert_eq!(labels, vec!["Flame", "Rainbow", "Rhythm", "Easy", "Sleep"]);

    let value = mode_value_for_label(cap, "Rhythm").expect("value for Rhythm");
    assert_eq!(
        mode_label_for_platform_value(cap, &value).as_deref(),
        Some("Rhythm")
    );
    assert!(CapabilityModeSelect::new(&Device::new("H7131", "some-heater"), cap).is_ok());
}

#[test]
fn select_config_of_fan_speed() {
    let device = fan_with(vec![]);
    let select = CapabilityModeSelect::new(&device, &h1310_fan_speed_cap()).unwrap();
    assert_eq!(select.device_id, "47:64:F8:9C:BD:BC:DF:4A");
    assert_eq!(select.instance_name, "fanSpeedMode");
    let config = &select.select;
    assert_eq!(
        config.command_topic,
        "gv2mqtt/select/4764F89CBDBCDF4A/command/fanSpeedMode"
    );
    assert_eq!(
        config.state_topic,
        "gv2mqtt/select/4764F89CBDBCDF4A/state/fanSpeedMode"
    );
    assert_eq!(config.base.unique_id, "gv2mqtt-4764F89CBDBCDF4A-fanSpeedMode");
    assert_eq!(config.base.name.as_deref(), Some("Fan Speed"));
    assert_eq!(config.base.availability_topic, "gv2mqtt/availability");
    assert_eq!(config.base.device.model, "H1310");
    assert_eq!(config.options.len(), 6);
}

#[test]
fn select_topics_are_made_safe() {
    let cap = mode_cap("odd mode/1", vec![option("On", JsonValue::from(1))]);
    let select = CapabilityModeSelect::new(&Device::new("H7131", "AA:BB"), &cap).unwrap();
    assert_eq!(select.select.command_topic, "gv2mqtt/select/AABB/command/odd_mode_1");
    assert_eq!(select.instance_name, "odd mode/1");
}

#[test]
fn capability_without_options_makes_no_select() {
    let device = Device::new("H7131", "AA:BB");
    let mut cap = mode_cap("workMode", vec![]);
    let err = CapabilityModeSelect::new(&device, &cap).unwrap_err();
    assert!(matches!(err, ModeError::NoOptions { .. }));
    assert_eq!(err.message(), "mode capability workMode has no enum options");

    cap.parameters = Some(DeviceParameters::Integer {
        unit: None,
        min: 0,
        max: 100,
        precision: 1,
    });
    assert!(CapabilityModeSelect::new(&device, &cap).is_err());
    assert!(mode_option_labels(&cap).is_empty());
    assert!(mode_value_for_label(&cap, "x").is_none());
    assert!(mode_label_for_platform_value(&cap, &JsonValue::from(1)).is_none());

    cap.parameters = None;
    assert!(CapabilityModeSelect::new(&device, &cap).is_err());
}

#[test]
fn first_of_equal_options_counts() {
    let cap = mode_cap(
        "m",
        vec![
            option("A", JsonValue::from(1)),
            option("B", JsonValue::from(1)),
            option("A", JsonValue::from(2)),
            option("Empty", JsonValue::from("")),
        ],
    );
    assert_eq!(mode_value_for_label(&cap, "A"), Some(JsonValue::from(1)));
    assert_eq!(mode_value_for_label(&cap, "B"), Some(JsonValue::from(1)));
    assert_eq!(
        mode_label_for_platform_value(&cap, &JsonValue::from(1)).as_deref(),
        Some("A")
    );
    assert_eq!(
        mode_label_for_platform_value(&cap, &JsonValue::from(2)).as_deref(),
        Some("A")
    );
    assert_eq!(mode_value_for_label(&cap, "Empty"), Some(JsonValue::from("")));
    assert!(mode_label_for_platform_value(&cap, &JsonValue::from("")).is_none());
}

#[test]
fn values_of_any_type_select() {
    let object: JsonValue = serde_json::from_str(r#"{"a": 1, "b": [true, null]}"#).unwrap();
    let same: JsonValue = serde_json::from_str(r#"{"b": [true, null], "a": 1}"#).unwrap();
    let cap = mode_cap(
        "m",
        vec![
            option("Text", JsonValue::from("x")),
            option("Object", object),
            option("Float", JsonValue::from(1.0)),
            option("Int", JsonValue::from(1)),
        ],
    );
    assert_eq!(mode_label_for_platform_value(&cap, &same).as_deref(), Some("Object"));
    assert_eq!(
        mode_label_for_platform_value(&cap, &JsonValue::from(1)).as_deref(),
        Some("Int")
    );
    assert_eq!(
        mode_label_for_platform_value(&cap, &JsonValue::from("x")).as_deref(),
        Some("Text")
    );
    assert!(mode_label_for_platform_value(&cap, &JsonValue::from("1")).is_none());
}

#[test]
fn sources_of_the_shown_mode() {
    let mut device = fan_with(vec![h1310_fan_speed_cap()]);
    let select = CapabilityModeSelect::new(&device, &h1310_fan_speed_cap()).unwrap();
    let topic = "gv2mqtt/select/4764F89CBDBCDF4A/state/fanSpeedMode".to_string();
    assert_eq!(shown(&select, &device), None);

    device.set_mode_capability_label("fanSpeedMode", "Speed 1".to_string());
    assert_eq!(shown(&select, &device), Some((topic.clone(), "Speed 1".to_string())));

    device.set_iot_fan_speed(4);
    assert_eq!(shown(&select, &device), Some((topic.clone(), "Speed 4".to_string())));

    report(&mut device, "fanSpeedMode", JsonValue::from(""));
    assert_eq!(shown(&select, &device), Some((topic.clone(), "Speed 4".to_string())));

    report(&mut device, "fanSpeedMode", JsonValue::from(6));
    assert_eq!(shown(&select, &device), Some((topic.clone(), "Speed 6".to_string())));

    report(&mut device, "fanSpeedMode", JsonValue::from(7));
    device.set_iot_fan_speed(0);
    assert_eq!(shown(&select, &device), Some((topic, "Speed 1".to_string())));
}

#[test]
fn iot_speed_shows_on_fan_speed_alone() {
    let cap = mode_cap("lightScene", vec![option("Sunrise", JsonValue::from(4))]);
    let mut device = fan_with(vec![cap.clone()]);
    device.set_iot_fan_speed(4);
    let select = CapabilityModeSelect::new(&device, &cap).unwrap();
    assert_eq!(shown(&select, &device), None);
}

#[test]
fn missing_metadata_is_an_error() {
    let device = Device::new("H1310", "AA:BB");
    let select = CapabilityModeSelect::new(&device, &h1310_fan_speed_cap()).unwrap();
    let err = select.notify_state(&device).unwrap_err();
    assert!(matches!(err, ModeError::MissingMetadata));
    assert_eq!(err.message(), "mode capability metadata missing");
}

#[test]
fn commands_by_label() {
    let device = fan_with(vec![h1310_fan_speed_cap()]);
    let command = mqtt_capability_mode_command(&device, "fanSpeedMode", "Speed 5").unwrap();
    assert_eq!(command.capability.instance, "fanSpeedMode");
    assert_eq!(command.label, "Speed 5");
    assert_eq!(command.value, JsonValue::from(5));

    let err = mqtt_capability_mode_command(&device, "fanSpeedMode", "Speed 9").unwrap_err();
    assert!(matches!(err, ModeError::UnknownLabel { .. }));
    assert_eq!(err.message(), "mode label Speed 9 not found for fanSpeedMode");

    let err = mqtt_capability_mode_command(&device, "lightScene", "Sunrise").unwrap_err();
    assert!(matches!(err, ModeError::NoCapability { .. }));
    assert_eq!(err.message(), "device has no mode capability lightScene");
}

#[test]
fn every_offered_label_can_be_commanded() {
    let cap = h1310_fan_speed_cap();
    let device = fan_with(vec![h1310_fan_speed_cap()]);
    for label in mode_option_labels(&cap) {
        let command = mqtt_capability_mode_command(&device, "fanSpeedMode", &label).unwrap();
        assert_eq!(mode_label_for_platform_value(&cap, &command.value), Some(label));
    }
}
