use govee2mqtt::hass_mqtt::switch::{
    inferred_toggle_state, is_empty_state_quirk_device, resolve_capability_toggle_state,
    toggle_mqtt_payload, unhandled_platform_state, CapabilitySwitch, SwitchConfig,
};
use govee2mqtt::platform_api::{
    DeviceCapability, DeviceCapabilityKind, DeviceCapabilityState, HttpDeviceState,
};
use govee2mqtt::service::device::{Device as ServiceDevice, DeviceState};
use serde_json::Value as JsonValue;

fn value_of(value: JsonValue) -> JsonValue {
    let mut state = serde_json::Map::new();
    state.insert("value".to_string(), value);
    JsonValue::Object(state)
}

fn capability_state(instance: &str, state: JsonValue) -> DeviceCapabilityState {
    DeviceCapabilityState {
        kind: DeviceCapabilityKind::Toggle,
        instance: instance.to_string(),
        state,
    }
}

fn device_with(sku: &str, capabilities: Vec<DeviceCapabilityState>) -> ServiceDevice {
    let mut device = ServiceDevice::new(sku, "47:64:F8:9C:BD:BC:DF:4A");
    device.set_http_device_state(HttpDeviceState {
        sku: sku.to_string(),
        device: "47:64:F8:9C:BD:BC:DF:4A".to_string(),
        capabilities,
    });
    device
}

/// A fan after its first poll: empty toggles, and a light that is dimmed but lit.
fn h1310_with_platform_state() -> ServiceDevice {
    let mut capabilities = vec![capability_state("brightness", value_of(JsonValue::from(50)))];
    for instance in [
        "fanToggle",
        "mainLightToggle",
        "backgroundLightToggle",
        "reverseAirflowToggle",
        "fanSpeedMode",
    ] {
        capabilities.push(capability_state(instance, value_of(JsonValue::from(""))));
    }
    device_with("H1310", capabilities)
}

fn toggle_cap(instance: &str) -> DeviceCapability {
    DeviceCapability {
        kind: DeviceCapabilityKind::Toggle,
        instance: instance.to_string(),
        parameters: None,
        alarm_type: None,
        event_state: None,
    }
}

fn sent(device: &ServiceDevice, instance: &str) -> Option<(String, String)> {
    CapabilitySwitch::new(device, &toggle_cap(instance))
        .notify_state(device)
        .map(|message| (message.topic, message.payload))
}

#[test]
fn empty_platform_toggle_defaults_off() {
    let device = h1310_with_platform_state();
    assert_eq!(
        resolve_capability_toggle_state(&device, "fanToggle"),
        Some(false)
    );
    assert_eq!(
        resolve_capability_toggle_state(&device, "reverseAirflowToggle"),
        Some(false)
    );
}

#[test]
fn optimistic_toggle_state() {
    let mut device = h1310_with_platform_state();
    device.set_toggle_capability_state("fanToggle", true);
    assert_eq!(
        resolve_capability_toggle_state(&device, "fanToggle"),
        Some(true)
    );
}

#[test]
fn inferred_main_light_from_brightness() {
    let device = h1310_with_platform_state();
    assert_eq!(
        inferred_toggle_state(&device, "mainLightToggle"),
        Some(true)
    );
}

#[test]
fn inferred_fan_from_mode_label() {
    let mut device = h1310_with_platform_state();
    device.set_mode_capability_label("fanSpeedMode", "Speed 3".to_string());
    assert_eq!(inferred_toggle_state(&device, "fanToggle"), Some(true));
    assert_eq!(
        resolve_capability_toggle_state(&device, "fanToggle"),
        Some(true)
    );
}

/// Non-H1310/H1370 devices leave the state unresolved for an empty-string
/// platform value, Govee's "no meaningful data yet".
#[test]
fn non_h1310_empty_platform_toggle_stays_unknown() {
    let mut device = ServiceDevice::new("H7131", "some-other-device-id");
    device.set_http_device_state(HttpDeviceState {
        sku: "H7131".to_string(),
        device: "some-other-device-id".to_string(),
        capabilities: vec![DeviceCapabilityState {
            kind: DeviceCapabilityKind::Toggle,
            instance: "gradientToggle".to_string(),
            state: value_of(JsonValue::from("")),
        }],
    });

    assert_eq!(
        resolve_capability_toggle_state(&device, "gradientToggle"),
        None
    );
}

/// The quirk devices resolve to a definite OFF before the first poll, so that
/// HASS gets a state on the topic.
#[test]
fn quirk_device_without_platform_state_defaults_off() {
    let device = ServiceDevice::new("H1310", "47:64:F8:9C:BD:BC:DF:4A");
    assert!(device.http_device_state.is_none());

    for instance in [
        "fanToggle",
        "mainLightToggle",
        "backgroundLightToggle",
        "reverseAirflowToggle",
    ] {
        assert_eq!(
            resolve_capability_toggle_state(&device, instance),
            Some(false),
            "{instance} should seed OFF before the first poll"
        );
    }
}

/// The empty-string platform value resolves to OFF also for a toggle that has
/// no inference rule.
#[test]
fn background_light_toggle_defaults_off() {
    let device = h1310_with_platform_state();
    assert_eq!(
        resolve_capability_toggle_state(&device, "backgroundLightToggle"),
        Some(false)
    );
}

#[test]
fn numeric_platform_toggle() {
    let mut device = h1310_with_platform_state();
    let cap = device
        .http_device_state
        .as_mut()
        .unwrap()
        .capabilities
        .iter_mut()
        .find(|c| c.instance == "fanToggle")
        .unwrap();
    cap.state = value_of(JsonValue::from(1));
    assert_eq!(
        resolve_capability_toggle_state(&device, "fanToggle"),
        Some(true)
    );
}

#[test]
fn numeric_zero_is_off_whatever_else_is_known() {
    let mut device = device_with(
        "H7131",
        vec![capability_state("gradientToggle", value_of(JsonValue::from(0)))],
    );
    device.set_iot_toggle_state("gradientToggle", true);
    device.set_toggle_capability_state("gradientToggle", true);
    assert_eq!(
        resolve_capability_toggle_state(&device, "gradientToggle"),
        Some(false)
    );
}

#[test]
fn negative_numbers_are_on() {
    let device = device_with(
        "H7131",
        vec![capability_state("t", value_of(JsonValue::from(-2)))],
    );
    assert_eq!(resolve_capability_toggle_state(&device, "t"), Some(true));
}

#[test]
fn only_integers_that_fit_are_numbers() {
    for value in [
        JsonValue::from(1.0),
        JsonValue::from(u64::MAX),
        JsonValue::from(true),
        JsonValue::from("1"),
        JsonValue::Null,
    ] {
        let device = device_with("H7131", vec![capability_state("t", value_of(value))]);
        assert_eq!(resolve_capability_toggle_state(&device, "t"), None);
    }
    let bounds = [JsonValue::from(i64::MAX), JsonValue::from(i64::MIN)];
    for value in bounds {
        let device = device_with("H7131", vec![capability_state("t", value_of(value))]);
        assert_eq!(resolve_capability_toggle_state(&device, "t"), Some(true));
    }
}

#[test]
fn state_without_value_member_is_no_number() {
    let array: JsonValue = serde_json::from_str("[1, 2]").unwrap();
    let nested: JsonValue = serde_json::from_str(r#"{"other": {"value": 1}}"#).unwrap();
    for state in [array, nested, JsonValue::from(1), JsonValue::Null] {
        let device = device_with("H7131", vec![capability_state("t", state)]);
        assert_eq!(resolve_capability_toggle_state(&device, "t"), None);
    }
}

#[test]
fn iot_outranks_the_optimistic_cache() {
    let mut device = h1310_with_platform_state();
    device.set_toggle_capability_state("fanToggle", true);
    device.set_iot_toggle_state("fanToggle", false);
    assert_eq!(
        resolve_capability_toggle_state(&device, "fanToggle"),
        Some(false)
    );
}

#[test]
fn the_latest_command_counts_for_its_toggle_alone() {
    let mut device = ServiceDevice::new("H7131", "AA:BB");
    device.set_toggle_capability_state("a", true);
    device.set_toggle_capability_state("b", false);
    device.set_toggle_capability_state("a", false);
    device.set_toggle_capability_state("b", true);
    assert_eq!(resolve_capability_toggle_state(&device, "a"), Some(false));
    assert_eq!(resolve_capability_toggle_state(&device, "b"), Some(true));
    assert_eq!(resolve_capability_toggle_state(&device, "c"), None);
}

#[test]
fn inference_is_for_polled_quirk_devices() {
    let mut device = h1310_with_platform_state();
    assert_eq!(inferred_toggle_state(&device, "fanToggle"), None);
    assert_eq!(inferred_toggle_state(&device, "backgroundLightToggle"), None);
    device.platform_poll = false;
    assert_eq!(inferred_toggle_state(&device, "mainLightToggle"), None);

    let mut other = ServiceDevice::new("H7131", "AA:BB");
    other.set_device_state(DeviceState { on: true, brightness: 100 });
    other.set_mode_capability_label("fanSpeedMode", "Speed 1".to_string());
    assert!(!is_empty_state_quirk_device(&other));
    assert_eq!(inferred_toggle_state(&other, "mainLightToggle"), None);
    assert_eq!(inferred_toggle_state(&other, "fanToggle"), None);
}

#[test]
fn inferred_fan_from_platform_speed() {
    for (speed, on) in [(0, false), (3, true), (-1, false)] {
        let device = device_with(
            "H1370",
            vec![capability_state("fanSpeedMode", value_of(JsonValue::from(speed)))],
        );
        assert_eq!(inferred_toggle_state(&device, "fanToggle"), Some(on));
    }
}

#[test]
fn inferred_main_light_off() {
    let mut device = h1310_with_platform_state();
    device.set_device_state(DeviceState { on: false, brightness: 0 });
    assert_eq!(inferred_toggle_state(&device, "mainLightToggle"), Some(false));
    device.set_device_state(DeviceState { on: true, brightness: 0 });
    assert_eq!(inferred_toggle_state(&device, "mainLightToggle"), Some(true));
}

#[test]
fn unusual_reports_are_unhandled() {
    let usual = h1310_with_platform_state();
    assert!(unhandled_platform_state(&usual, "fanToggle").is_none());
    assert!(unhandled_platform_state(&usual, "noSuchToggle").is_none());

    let odd = device_with("H1310", vec![capability_state("t", value_of(JsonValue::from("on")))]);
    assert_eq!(unhandled_platform_state(&odd, "t").unwrap().instance, "t");
    assert_eq!(resolve_capability_toggle_state(&odd, "t"), Some(false));

    let switch = CapabilitySwitch::new(&odd, &toggle_cap("t"));
    assert_eq!(switch.unhandled_report(&odd).unwrap().instance, "t");

    let power = device_with(
        "H1310",
        vec![capability_state("powerSwitch", value_of(JsonValue::from("on")))],
    );
    let switch = CapabilitySwitch::new(&power, &toggle_cap("powerSwitch"));
    assert!(switch.unhandled_report(&power).is_none());

    let other = device_with("H7131", vec![capability_state("t", value_of(JsonValue::from("on")))]);
    assert!(unhandled_platform_state(&other, "t").is_none());
}

#[test]
fn payloads() {
    assert_eq!(toggle_mqtt_payload(true), "ON");
    assert_eq!(toggle_mqtt_payload(false), "OFF");
}

#[test]
fn switch_config_of_a_toggle() {
    let device = ServiceDevice::new("H1310", "47:64:F8:9C:BD:BC:DF:4A");
    let config = SwitchConfig::for_device(&device, &toggle_cap("mainLightToggle"));
    assert_eq!(
        config.command_topic,
        "gv2mqtt/switch/4764F89CBDBCDF4A/command/mainLightToggle"
    );
    assert_eq!(
        config.state_topic,
        "gv2mqtt/switch/4764F89CBDBCDF4A/mainLightToggle/state"
    );
    assert_eq!(config.base.unique_id, "gv2mqtt-4764F89CBDBCDF4A-mainLightToggle");
    assert_eq!(config.base.name.as_deref(), Some("Main Light Toggle"));
    assert_eq!(config.base.availability_topic, "gv2mqtt/availability");
    assert_eq!(config.base.origin.name, "govee2mqtt");
    assert_eq!(config.base.device.identifier, "gv2mqtt-4764F89CBDBCDF4A");
    assert!(config.base.device_class.is_none());

    let switch = CapabilitySwitch::new(&device, &toggle_cap("mainLightToggle"));
    assert_eq!(switch.device_id, "47:64:F8:9C:BD:BC:DF:4A");
    assert_eq!(switch.instance_name, "mainLightToggle");
}

#[test]
fn power_switch_shows_the_power() {
    let mut device = ServiceDevice::new("H7131", "AA:BB");
    device.set_toggle_capability_state("powerSwitch", true);
    assert_eq!(sent(&device, "powerSwitch"), None);
    device.set_device_state(DeviceState { on: false, brightness: 10 });
    assert_eq!(
        sent(&device, "powerSwitch"),
        Some(("gv2mqtt/switch/AABB/powerSwitch/state".to_string(), "OFF".to_string()))
    );
}

#[test]
fn toggle_switch_shows_the_toggle() {
    let mut device = ServiceDevice::new("H7131", "AA:BB");
    assert_eq!(sent(&device, "gradientToggle"), None);
    device.set_toggle_capability_state("gradientToggle", true);
    assert_eq!(
        sent(&device, "gradientToggle"),
        Some(("gv2mqtt/switch/AABB/gradientToggle/state".to_string(), "ON".to_string()))
    );
    let fan = ServiceDevice::new("H1310", "AA:BB");
    assert_eq!(
        sent(&fan, "fanToggle"),
        Some(("gv2mqtt/switch/AABB/fanToggle/state".to_string(), "OFF".to_string()))
    );
}

#[test]
fn platform_report_tells_power_and_brightness() {
    for (power, brightness, told) in [
        (Some(1), Some(40), Some((true, 40))),
        (Some(0), None, Some((false, 0))),
        (None, Some(300), Some((false, 255))),
        (None, Some(-1), Some((false, 0))),
        (None, None, None),
    ] {
        let mut capabilities = vec![capability_state("t", value_of(JsonValue::from(1)))];
        if let Some(power) = power {
            capabilities.push(capability_state("powerSwitch", value_of(JsonValue::from(power))));
        }
        if let Some(brightness) = brightness {
            let level = value_of(JsonValue::from(brightness));
            capabilities.push(capability_state("brightness", level));
        }
        let device = device_with("H7131", capabilities);
        assert_eq!(
            device.device_state(),
            told.map(|(on, brightness)| DeviceState { on, brightness })
        );
    }
}

#[test]
fn the_source_that_told_last_counts() {
    let mut device = h1310_with_platform_state();
    device.set_device_state(DeviceState { on: true, brightness: 7 });
    assert_eq!(device.device_state(), Some(DeviceState { on: true, brightness: 7 }));

    let report = h1310_with_platform_state().http_device_state.unwrap();
    device.set_http_device_state(report);
    assert_eq!(device.device_state(), Some(DeviceState { on: false, brightness: 50 }));

    device.set_http_device_state(HttpDeviceState {
        sku: "H1310".to_string(),
        device: "47:64:F8:9C:BD:BC:DF:4A".to_string(),
        capabilities: vec![capability_state("brightness", value_of(JsonValue::from("")))],
    });
    assert_eq!(device.device_state(), Some(DeviceState { on: false, brightness: 50 }));
}
