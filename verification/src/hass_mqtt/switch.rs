//! Switches: a device's power, and its toggle capabilities.

use super::base::EntityConfig;
use super::instance::Publication;
use crate::json::{is_empty_text, Json};
use crate::platform_api::{DeviceCapability, DeviceCapabilityState};
use crate::service::device::Device as ServiceDevice;
use crate::service::hass::{
    camel_case_to_space_separated, switch_instance_state_topic, topic_safe_id,
};
use crate::text::text_equal;
use vstd::prelude::*;

verus! {

#[derive(Clone, Debug)]
pub struct SwitchConfig {
    pub base: EntityConfig,
    pub command_topic: String,
    pub state_topic: String,
}

/// The topic on which a switch takes commands: `gv2mqtt/switch/<id>/command/<instance>`.
pub open spec fn switch_command_topic(id: Seq<char>, instance: Seq<char>) -> Seq<char> {
    "gv2mqtt/switch/"@ + id + "/command/"@ + instance
}

impl SwitchConfig {
    /// The config of the switch for one capability instance of a device.
    pub open spec fn is_switch_of(self, device: ServiceDevice, instance: Seq<char>) -> bool {
        let id = crate::service::hass::device_topic_id(device);
        &&& self.base.is_plain_entity(
            device,
            crate::service::hass::spaced_words(instance),
            instance,
        )
        &&& self.command_topic@ == switch_command_topic(id, instance)
        &&& self.state_topic@ == crate::service::hass::switch_state_topic(id, instance)
    }

    pub fn for_device(device: &ServiceDevice, instance: &DeviceCapability) -> (config: Self)
        ensures
            config.is_switch_of(*device, instance.instance@),
    {
        let name: &str = instance.instance.as_str();
        let id: String = topic_safe_id(device);
        let mut command_topic: String = "gv2mqtt/switch/".to_owned();
        command_topic.append(id.as_str());
        command_topic.append("/command/");
        command_topic.append(name);
        SwitchConfig {
            base: EntityConfig::plain_entity(device, camel_case_to_space_separated(name), name),
            command_topic,
            state_topic: switch_instance_state_topic(device, name),
        }
    }
}

/// The switch entity of one capability instance of a device.
#[derive(Clone, Debug)]
pub struct CapabilitySwitch {
    pub switch: SwitchConfig,
    pub device_id: String,
    pub instance_name: String,
}

/// The models that report empty platform state for most toggles.
pub open spec fn has_empty_state_quirk(device: ServiceDevice) -> bool {
    device.sku@ == "H1310"@ || device.sku@ == "H1370"@
}

/// H1310/H1370 ceiling fans report empty platform state for most toggles
/// (`fanToggle`, `mainLightToggle`, `reverseAirflowToggle`, ...) rather than
/// omitting the capability or returning a numeric value. Other device
/// families are not known to exhibit this, so the "default to OFF instead of
/// leaving the entity unknown" fallbacks below are intentionally scoped to
/// this family to avoid changing behavior for devices that legitimately mean
/// "unknown" when they return an empty string.
pub fn is_empty_state_quirk_device(device: &ServiceDevice) -> (quirk: bool)
    ensures
        quirk == has_empty_state_quirk(*device),
{
    text_equal(device.sku.as_str(), "H1310") || text_equal(device.sku.as_str(), "H1370")
}

/// Whether the main light is on: it shines or its power is on.
pub open spec fn main_light_on(device: ServiceDevice) -> Option<bool> {
    match device.merged_state {
        Some(state) => Some(state.brightness > 0 || state.on),
        None => None,
    }
}

/// Whether the fan is on: a speed was commanded, or else the platform reports one above zero.
pub open spec fn fan_on(device: ServiceDevice) -> Option<bool> {
    if device.mode_labels.known("fanSpeedMode"@) is Some {
        Some(true)
    } else {
        match device.platform_number("fanSpeedMode"@) {
            Some(speed) => Some(speed > 0),
            None => None,
        }
    }
}

/// What other reports of a device with the empty state quirk tell of a toggle.
pub open spec fn inferred_state(device: ServiceDevice, instance: Seq<char>) -> Option<bool> {
    if !has_empty_state_quirk(device) || !device.platform_poll {
        None
    } else if instance == "mainLightToggle"@ {
        main_light_on(device)
    } else if instance == "fanToggle"@ {
        fan_on(device)
    } else {
        None
    }
}

/// Infer toggle state for H1310/H1370 when Govee returns empty platform values.
pub fn inferred_toggle_state(device: &ServiceDevice, instance: &str) -> (on: Option<bool>)
    ensures
        on == inferred_state(*device, instance@),
{
    if !is_empty_state_quirk_device(device) || !device.needs_platform_poll() {
        return None;
    }
    if text_equal(instance, "mainLightToggle") {
        match device.device_state() {
            Some(state) => Some(state.brightness > 0 || state.on),
            None => None,
        }
    } else if text_equal(instance, "fanToggle") {
        if device.get_mode_capability_label("fanSpeedMode").is_some() {
            return Some(true);
        }
        match platform_number(device, "fanSpeedMode") {
            Some(speed) => Some(speed > 0),
            None => None,
        }
    } else {
        // Govee reports no usable state for the others, `backgroundLightToggle` and
        // `reverseAirflowToggle` among them, and there is nothing else in the payload to infer
        // them from. They fall through to the OFF default.
        None
    }
}

/// The number that the platform reports of a capability, if it reports one.
pub fn platform_number(device: &ServiceDevice, instance: &str) -> (number: Option<i64>)
    ensures
        number == device.platform_number(instance@),
{
    match &device.http_device_state {
        Some(state) => state.number_by_instance(instance),
        None => None,
    }
}

/// The number that the platform reports, as a toggle.
pub open spec fn platform_toggle(device: ServiceDevice, instance: Seq<char>) -> Option<bool> {
    match device.platform_number(instance) {
        Some(number) => Some(number != 0),
        None => None,
    }
}

/// What is left of a toggle that no source knows: OFF for a device with the empty state quirk.
pub open spec fn default_state(device: ServiceDevice) -> Option<bool> {
    if has_empty_state_quirk(device) {
        Some(false)
    } else {
        None
    }
}

/// What is known of a toggle. The sources, from the one that counts most: the number that the
/// platform reports, the decoded IoT notifications, the last command, what other reports tell,
/// and the default of the model.
pub open spec fn toggle_state(device: ServiceDevice, instance: Seq<char>) -> Option<bool> {
    crate::search::or_else(
        platform_toggle(device, instance),
        crate::search::or_else(
            device.iot_toggles.known(instance),
            crate::search::or_else(
                device.toggle_states.known(instance),
                crate::search::or_else(inferred_state(device, instance), default_state(device)),
            ),
        ),
    )
}

/// Resolve ON/OFF for platform toggle capabilities (not powerSwitch).
/// Priority: numeric platform value → decoded IoT state → optimistic cache →
/// H1310/H1370 inference → (H1310/H1370 only) empty-string OFF default.
pub fn resolve_capability_toggle_state(device: &ServiceDevice, instance: &str) -> (on: Option<bool>)
    ensures
        on == toggle_state(*device, instance@),
{
    if let Some(number) = platform_number(device, instance) {
        return Some(number != 0);
    }
    // Decoded IoT notifications are the only source that observes changes
    // made outside of Home Assistant, so they outrank the optimistic cache
    // (which only ever reflects commands that we ourselves sent).
    if let Some(on) = device.iot_toggle_state(instance) {
        return Some(on);
    }
    if let Some(on) = device.get_toggle_capability_state(instance) {
        return Some(on);
    }
    if let Some(on) = inferred_toggle_state(device, instance) {
        return Some(on);
    }
    if !is_empty_state_quirk_device(device) {
        return None;
    }
    // Either the platform's report holds nothing usable, or there is none yet. The latter is the
    // situation at initial registration, before the first poll has landed. Returning None here
    // would publish nothing, leaving the HASS entity `unknown` and rendering
    // it as force-off/force-on bolt buttons instead of a toggle. These
    // devices have no meaningful state to report until a poll arrives, so
    // seed them OFF; the first poll corrects it if it is actually on.
    Some(false)
}

/// Whether a toggle of a device with the empty state quirk is OFF by default although the platform
/// reports something other than the usual empty text.
pub open spec fn is_unhandled(device: ServiceDevice, instance: Seq<char>) -> bool {
    &&& has_empty_state_quirk(device)
    &&& platform_toggle(device, instance) is None
    &&& device.iot_toggles.known(instance) is None
    &&& device.toggle_states.known(instance) is None
    &&& inferred_state(device, instance) is None
    &&& device.state_capability(instance) is Some
    &&& device.platform_value(instance) != Some(Json::Str(seq![]))
}

/// The platform's report of a toggle, where the toggle is OFF by default and the report is not the
/// usual empty text: worth a warning.
pub fn unhandled_platform_state<'a>(device: &'a ServiceDevice, instance: &str) -> (report: Option<
    &'a DeviceCapabilityState,
>)
    ensures
        match report {
            Some(cap) => is_unhandled(*device, instance@) && device.state_capability(instance@)
                == Some(*cap),
            None => !is_unhandled(*device, instance@),
        },
{
    if !is_empty_state_quirk_device(device) || platform_number(device, instance).is_some()
        || device.iot_toggle_state(instance).is_some() || device.get_toggle_capability_state(
        instance,
    ).is_some() || inferred_toggle_state(device, instance).is_some() {
        return None;
    }
    let cap = device.get_state_capability_by_instance(instance)?;
    if let Some(value) = cap.value() {
        if is_empty_text(value) {
            return None;
        }
    }
    Some(cap)
}

/// What a switch sends of its state.
pub open spec fn toggle_payload(on: bool) -> Seq<char> {
    if on {
        "ON"@
    } else {
        "OFF"@
    }
}

pub fn toggle_mqtt_payload(on: bool) -> (payload: &'static str)
    ensures
        payload@ == toggle_payload(on),
{
    if on {
        "ON"
    } else {
        "OFF"
    }
}

/// What a switch shows: a device's power, or the state of a toggle.
pub open spec fn switch_state(device: ServiceDevice, instance: Seq<char>) -> Option<bool> {
    if instance == "powerSwitch"@ {
        match device.merged_state {
            Some(state) => Some(state.on),
            None => None,
        }
    } else {
        toggle_state(device, instance)
    }
}

impl CapabilitySwitch {
    pub fn new(device: &ServiceDevice, instance: &DeviceCapability) -> (switch: Self)
        ensures
            switch.switch.is_switch_of(*device, instance.instance@),
            switch.device_id@ == device.id@,
            switch.instance_name@ == instance.instance@,
    {
        CapabilitySwitch {
            switch: SwitchConfig::for_device(device, instance),
            device_id: device.id.clone(),
            instance_name: instance.instance.clone(),
        }
    }

    /// Whether the switch shows the device's power.
    pub fn is_power_switch(&self) -> (power: bool)
        ensures
            power == (self.instance_name@ == "powerSwitch"@),
    {
        text_equal(self.instance_name.as_str(), "powerSwitch")
    }

    /// The platform's report behind the switch, where it is worth a warning. That of the power
    /// switch never is: it does not show a toggle.
    pub fn unhandled_report<'a>(&self, device: &'a ServiceDevice) -> (report: Option<
        &'a DeviceCapabilityState,
    >)
        ensures
            match report {
                Some(cap) => self.instance_name@ != "powerSwitch"@ && is_unhandled(
                    *device,
                    self.instance_name@,
                ) && device.state_capability(self.instance_name@) == Some(*cap),
                None => self.instance_name@ == "powerSwitch"@ || !is_unhandled(
                    *device,
                    self.instance_name@,
                ),
            },
    {
        if self.is_power_switch() {
            None
        } else {
            unhandled_platform_state(device, self.instance_name.as_str())
        }
    }

    /// The message that tells Home Assistant the state of the switch. There is none while the
    /// state is unknown.
    pub fn notify_state(&self, device: &ServiceDevice) -> (message: Option<Publication>)
        ensures
            match switch_state(*device, self.instance_name@) {
                Some(on) => message matches Some(sent) && sent.topic@ == self.switch.state_topic@
                    && sent.payload@ == toggle_payload(on),
                None => message is None,
            },
    {
        let state: Option<bool> = if self.is_power_switch() {
            match device.device_state() {
                Some(state) => Some(state.on),
                None => None,
            }
        } else {
            resolve_capability_toggle_state(device, self.instance_name.as_str())
        };
        match state {
            Some(on) => Some(
                Publication {
                    topic: self.switch.state_topic.clone(),
                    payload: toggle_mqtt_payload(on).to_owned(),
                },
            ),
            None => None,
        }
    }
}

} // verus!
