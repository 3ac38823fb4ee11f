//! Mode selects: the choices of an enumerated capability.

use super::base::EntityConfig;
use super::instance::Publication;
use super::select::SelectConfig;
use crate::json::{is_empty_text, json_equal, json_from_u8, Json};
use crate::platform_api::{DeviceCapability, DeviceParameters, EnumOption};
use crate::service::device::Device as ServiceDevice;
use crate::service::hass::{camel_case_to_space_separated, topic_safe_id, topic_safe_string};
use crate::text::text_equal;
use serde_json::Value as JsonValue;
use vstd::prelude::*;

verus! {

/// Why a mode select cannot be made, shown or commanded.
#[derive(Clone, Debug)]
pub enum ModeError {
    /// The capability offers nothing to choose from.
    NoOptions { instance: String },
    /// The device has no metadata of the capability that the select shows.
    MissingMetadata,
    /// The device has no such capability to command.
    NoCapability { instance: String },
    /// The capability has no such choice.
    UnknownLabel { label: String, instance: String },
}

impl ModeError {
    pub open spec fn text(self) -> Seq<char> {
        match self {
            ModeError::NoOptions { instance } => "mode capability "@ + instance@
                + " has no enum options"@,
            ModeError::MissingMetadata => "mode capability metadata missing"@,
            ModeError::NoCapability { instance } => "device has no mode capability "@ + instance@,
            ModeError::UnknownLabel { label, instance } => "mode label "@ + label@
                + " not found for "@ + instance@,
        }
    }

    pub fn message(&self) -> (message: String)
        ensures
            message@ == self.text(),
    {
        match self {
            ModeError::NoOptions { instance } => {
                let mut message: String = "mode capability ".to_owned();
                message.append(instance.as_str());
                message.append(" has no enum options");
                message
            },
            ModeError::MissingMetadata => "mode capability metadata missing".to_owned(),
            ModeError::NoCapability { instance } => {
                let mut message: String = "device has no mode capability ".to_owned();
                message.append(instance.as_str());
                message
            },
            ModeError::UnknownLabel { label, instance } => {
                let mut message: String = "mode label ".to_owned();
                message.append(label.as_str());
                message.append(" not found for ");
                message.append(instance.as_str());
                message
            },
        }
    }
}

/// The name under which a mode capability is shown.
pub open spec fn mode_display_name(instance: Seq<char>) -> Seq<char> {
    if instance == "fanSpeedMode"@ {
        "Fan Speed"@
    } else {
        crate::service::hass::spaced_words(instance)
    }
}

pub fn mode_capability_display_name(instance: &str) -> (name: String)
    ensures
        name@ == mode_display_name(instance@),
{
    if text_equal(instance, "fanSpeedMode") {
        "Fan Speed".to_owned()
    } else {
        camel_case_to_space_separated(instance)
    }
}

/// The labels of a capability's choices, in their order.
pub open spec fn option_labels(cap: DeviceCapability) -> Seq<Seq<char>> {
    cap.options().map_values(|option: EnumOption| option.name@)
}

pub fn mode_option_labels(cap: &DeviceCapability) -> (labels: Vec<String>)
    ensures
        labels@.map_values(|label: String| label@) == option_labels(*cap),
{
    let mut labels: Vec<String> = Vec::new();
    if let Some(DeviceParameters::Enum { options }) = &cap.parameters {
        let mut i: usize = 0;
        while i < options.len()
            invariant
                i <= options.len(),
                labels.len() == i,
                forall|j: int| 0 <= j < i ==> (#[trigger] labels[j])@ == options[j].name@,
            decreases options.len() - i,
        {
            labels.push(options[i].name.clone());
            i += 1;
        }
    }
    assert(labels@.map_values(|label: String| label@) =~= option_labels(*cap));
    labels
}

/// Whether a choice has that label.
pub open spec fn has_label(label: Seq<char>) -> spec_fn(EnumOption) -> bool {
    |option: EnumOption| option.name@ == label
}

/// The first choice with that label.
pub open spec fn labelled_option(cap: DeviceCapability, label: Seq<char>) -> Option<EnumOption> {
    crate::search::first_where(cap.options(), has_label(label))
}

/// The value that selects the choice with that label.
pub open spec fn value_for_label(cap: DeviceCapability, label: Seq<char>) -> Option<Json> {
    match labelled_option(cap, label) {
        Some(option) => Some(crate::json::json_content(option.value)),
        None => None,
    }
}

pub fn mode_value_for_label(cap: &DeviceCapability, label: &str) -> (value: Option<JsonValue>)
    ensures
        match value {
            Some(value) => value_for_label(*cap, label@) == Some(crate::json::json_content(value)),
            None => value_for_label(*cap, label@) is None,
        },
{
    if let Some(DeviceParameters::Enum { options }) = &cap.parameters {
        let mut i: usize = 0;
        assert(options@.skip(0) =~= options@);
        while i < options.len()
            invariant
                i <= options.len(),
                cap.options() == options@,
                labelled_option(*cap, label@) == crate::search::first_where(
                    options@.skip(i as int),
                    has_label(label@),
                ),
            decreases options.len() - i,
        {
            if text_equal(options[i].name.as_str(), label) {
                return Some(options[i].value.clone());
            }
            assert(options@.skip(i as int).skip(1) =~= options@.skip(i + 1));
            i += 1;
        }
    }
    None
}

/// Whether a choice has that value.
pub open spec fn has_value(value: Json) -> spec_fn(EnumOption) -> bool {
    |option: EnumOption| crate::json::json_content(option.value) == value
}

/// The first choice that has that value.
pub open spec fn valued_option(cap: DeviceCapability, value: Json) -> Option<EnumOption> {
    crate::search::first_where(cap.options(), has_value(value))
}

/// The label of the choice that has a value. The empty text is no value: the platform sends it for
/// want of data.
pub open spec fn label_for_value(cap: DeviceCapability, value: Json) -> Option<Seq<char>> {
    if value == Json::Str(seq![]) {
        None
    } else {
        match valued_option(cap, value) {
            Some(option) => Some(option.name@),
            None => None,
        }
    }
}

pub fn mode_label_for_platform_value(cap: &DeviceCapability, value: &JsonValue) -> (label: Option<
    String,
>)
    ensures
        match label {
            Some(label) => label_for_value(*cap, crate::json::json_content(*value)) == Some(label@),
            None => label_for_value(*cap, crate::json::json_content(*value)) is None,
        },
{
    if is_empty_text(value) {
        return None;
    }
    if let Some(DeviceParameters::Enum { options }) = &cap.parameters {
        let mut i: usize = 0;
        assert(options@.skip(0) =~= options@);
        while i < options.len()
            invariant
                i <= options.len(),
                cap.options() == options@,
                crate::json::json_content(*value) != Json::Str(seq![]),
                valued_option(*cap, crate::json::json_content(*value))
                    == crate::search::first_where(
                    options@.skip(i as int),
                    has_value(crate::json::json_content(*value)),
                ),
            decreases options.len() - i,
        {
            if json_equal(&options[i].value, value) {
                return Some(options[i].name.clone());
            }
            assert(options@.skip(i as int).skip(1) =~= options@.skip(i + 1));
            i += 1;
        }
    }
    None
}

/// The select entity of one mode capability of a device.
#[derive(Clone, Debug)]
pub struct CapabilityModeSelect {
    pub select: SelectConfig,
    pub device_id: String,
    pub instance_name: String,
}

/// The topic on which a select takes commands: `gv2mqtt/select/<id>/command/<instance>`.
pub open spec fn select_command_topic(id: Seq<char>, instance: Seq<char>) -> Seq<char> {
    "gv2mqtt/select/"@ + id + "/command/"@ + instance
}

/// The topic on which a select reports: `gv2mqtt/select/<id>/state/<instance>`.
pub open spec fn select_state_topic(id: Seq<char>, instance: Seq<char>) -> Seq<char> {
    "gv2mqtt/select/"@ + id + "/state/"@ + instance
}

/// The choice that the platform reports.
pub open spec fn platform_label(
    device: ServiceDevice,
    cap: DeviceCapability,
    instance: Seq<char>,
) -> Option<Seq<char>> {
    match device.platform_value(instance) {
        Some(value) => label_for_value(cap, value),
        None => None,
    }
}

/// The choice that the IoT notifications show, which tell of the fan speed alone.
pub open spec fn iot_label(
    device: ServiceDevice,
    cap: DeviceCapability,
    instance: Seq<char>,
) -> Option<Seq<char>> {
    match device.iot_speed {
        Some(speed) if instance == "fanSpeedMode"@ => label_for_value(cap, Json::Int(speed as int)),
        _ => None,
    }
}

/// The choice that this bridge last commanded.
pub open spec fn commanded_label(device: ServiceDevice, instance: Seq<char>) -> Option<Seq<char>> {
    match device.mode_labels.known(instance) {
        Some(label) => Some(label@),
        None => None,
    }
}

/// What is known of a mode. The sources, from the one that counts most: the value that the
/// platform reports, the decoded IoT notifications, the last command.
pub open spec fn mode_label(
    device: ServiceDevice,
    cap: DeviceCapability,
    instance: Seq<char>,
) -> Option<Seq<char>> {
    crate::search::or_else(
        platform_label(device, cap, instance),
        crate::search::or_else(iot_label(device, cap, instance), commanded_label(device, instance)),
    )
}

impl CapabilityModeSelect {
    /// The select of one mode capability of a device.
    pub open spec fn is_select_of(self, device: ServiceDevice, cap: DeviceCapability) -> bool {
        let id = crate::service::hass::device_topic_id(device);
        let segment = crate::service::hass::topic_safe(cap.instance@);
        &&& self.select.base.is_plain_entity(device, mode_display_name(cap.instance@), segment)
        &&& self.select.command_topic@ == select_command_topic(id, segment)
        &&& self.select.state_topic@ == select_state_topic(id, segment)
        &&& self.select.options@.map_values(|label: String| label@) == option_labels(cap)
        &&& self.device_id@ == device.id@
        &&& self.instance_name@ == cap.instance@
    }

    pub fn new(device: &ServiceDevice, cap: &DeviceCapability) -> (made: Result<Self, ModeError>)
        ensures
            match made {
                Ok(select) => option_labels(*cap).len() > 0 && select.is_select_of(*device, *cap),
                Err(ModeError::NoOptions { instance }) => option_labels(*cap).len() == 0
                    && instance@ == cap.instance@,
                Err(_) => false,
            },
    {
        let options: Vec<String> = mode_option_labels(cap);
        assert(options@.map_values(|label: String| label@).len() == options.len());
        if options.is_empty() {
            return Err(ModeError::NoOptions { instance: cap.instance.clone() });
        }
        let segment: String = topic_safe_string(cap.instance.as_str());
        let id: String = topic_safe_id(device);
        let mut command_topic: String = "gv2mqtt/select/".to_owned();
        command_topic.append(id.as_str());
        command_topic.append("/command/");
        command_topic.append(segment.as_str());
        let mut state_topic: String = "gv2mqtt/select/".to_owned();
        state_topic.append(id.as_str());
        state_topic.append("/state/");
        state_topic.append(segment.as_str());
        Ok(
            CapabilityModeSelect {
                select: SelectConfig {
                    base: EntityConfig::plain_entity(
                        device,
                        mode_capability_display_name(cap.instance.as_str()),
                        segment.as_str(),
                    ),
                    command_topic,
                    state_topic,
                    options,
                },
                device_id: device.id.clone(),
                instance_name: cap.instance.clone(),
            },
        )
    }

    /// The message that tells Home Assistant the mode. There is none while the mode is unknown.
    pub fn notify_state(&self, device: &ServiceDevice) -> (sent: Result<
        Option<Publication>,
        ModeError,
    >)
        ensures
            match device.capability(self.instance_name@) {
                Some(cap) => match mode_label(*device, cap, self.instance_name@) {
                    Some(label) => sent matches Ok(Some(message)) && message.topic@
                        == self.select.state_topic@ && message.payload@ == label,
                    None => sent matches Ok(None),
                },
                None => sent matches Err(ModeError::MissingMetadata),
            },
    {
        let instance: &str = self.instance_name.as_str();
        let cap = match device.get_capability_by_instance(instance) {
            Some(cap) => cap,
            None => return Err(ModeError::MissingMetadata),
        };
        if let Some(state_cap) = device.get_state_capability_by_instance(instance) {
            if let Some(platform_value) = state_cap.value() {
                if let Some(label) = mode_label_for_platform_value(cap, platform_value) {
                    return Ok(Some(self.state_message(label)));
                }
            }
        }
        // H1310/H1370 report no usable platform state for fanSpeedMode, but
        // do report the live speed over IoT. Prefer that over the optimistic
        // label, so that speed changes made from the Govee app or the remote
        // are reflected here.
        if text_equal(instance, "fanSpeedMode") {
            if let Some(speed) = device.iot_fan_speed() {
                let value: JsonValue = json_from_u8(speed);
                if let Some(label) = mode_label_for_platform_value(cap, &value) {
                    return Ok(Some(self.state_message(label)));
                }
            }
        }
        match device.get_mode_capability_label(instance) {
            Some(label) => Ok(Some(self.state_message(label.clone()))),
            None => Ok(None),
        }
    }

    fn state_message(&self, label: String) -> (message: Publication)
        ensures
            message.topic@ == self.select.state_topic@,
            message.payload@ == label@,
    {
        Publication { topic: self.select.state_topic.clone(), payload: label }
    }
}

/// A mode to set: the capability, and the choice with its label and value.
#[derive(Clone, Debug)]
pub struct ModeCommand<'a> {
    pub capability: &'a DeviceCapability,
    pub label: String,
    pub value: JsonValue,
}

/// What a label that arrives on a select's command topic asks of the device.
pub fn mqtt_capability_mode_command<'a>(
    device: &'a ServiceDevice,
    instance: &str,
    label: &str,
) -> (command: Result<ModeCommand<'a>, ModeError>)
    ensures
        match device.capability(instance@) {
            Some(cap) => match value_for_label(cap, label@) {
                Some(value) => command matches Ok(set) && *set.capability == cap && set.label@
                    == label@ && crate::json::json_content(set.value) == value,
                None => command matches Err(ModeError::UnknownLabel { label: l, instance: i })
                    && l@ == label@ && i@ == instance@,
            },
            None => command matches Err(ModeError::NoCapability { instance: i }) && i@ == instance@,
        },
        command matches Ok(set) ==> set.capability.instance@ == instance@,
{
    let cap = match device.get_capability_by_instance(instance) {
        Some(cap) => cap,
        None => return Err(ModeError::NoCapability { instance: instance.to_owned() }),
    };
    match mode_value_for_label(cap, label) {
        Some(value) => Ok(ModeCommand { capability: cap, label: label.to_owned(), value }),
        None => Err(
            ModeError::UnknownLabel { label: label.to_owned(), instance: instance.to_owned() },
        ),
    }
}

} // verus!
