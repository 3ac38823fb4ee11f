//! Devices as Govee's platform API describes them.

use crate::json::Json;
use crate::service::device::DeviceState;
use crate::text::text_equal;
use serde_json::Value as JsonValue;
use std::collections::HashMap;
use vstd::prelude::*;

verus! {

/// What sort of thing a capability controls or reports.
#[derive(Clone, Copy, Debug, PartialEq, Eq, Structural)]
pub enum DeviceCapabilityKind {
    OnOff,
    Toggle,
    Range,
    Mode,
    ColorSetting,
    SegmentColorSetting,
    MusicSetting,
    DynamicScene,
    WorkMode,
    DynamicSetting,
    TemperatureSetting,
    Online,
    Property,
    Event,
}

/// One choice of an enumerated parameter: its label, and the value that selects it.
#[derive(Clone, Debug)]
pub struct EnumOption {
    pub name: String,
    pub value: JsonValue,
    pub extras: HashMap<String, JsonValue>,
}

/// The values that a capability takes.
#[derive(Clone, Debug)]
pub enum DeviceParameters {
    Enum { options: Vec<EnumOption> },
    Integer { unit: Option<String>, min: u32, max: u32, precision: u32 },
    /// A type of parameter that has no list of choices.
    Other { data_type: String },
}

/// A capability in a device's metadata.
#[derive(Clone, Debug)]
pub struct DeviceCapability {
    pub kind: DeviceCapabilityKind,
    pub instance: String,
    pub parameters: Option<DeviceParameters>,
    pub alarm_type: Option<u32>,
    pub event_state: Option<JsonValue>,
}

impl DeviceCapability {
    /// The choices that the capability offers: none, unless its parameter is enumerated.
    pub open spec fn options(self) -> Seq<EnumOption> {
        match self.parameters {
            Some(DeviceParameters::Enum { options }) => options@,
            _ => seq![],
        }
    }
}

/// Whether a capability is of that instance.
pub open spec fn is_of_instance(instance: Seq<char>) -> spec_fn(DeviceCapability) -> bool {
    |cap: DeviceCapability| cap.instance@ == instance
}

/// The metadata of one device.
#[derive(Clone, Debug)]
pub struct HttpDeviceInfo {
    pub sku: String,
    pub device: String,
    pub device_name: String,
    pub capabilities: Vec<DeviceCapability>,
}

impl HttpDeviceInfo {
    /// The first capability of that instance.
    pub open spec fn capability_of(self, instance: Seq<char>) -> Option<DeviceCapability> {
        crate::search::first_where(self.capabilities@, is_of_instance(instance))
    }

    pub fn capability_by_instance(&self, instance: &str) -> (found: Option<&DeviceCapability>)
        ensures
            match found {
                Some(cap) => self.capability_of(instance@) == Some(*cap),
                None => self.capability_of(instance@) is None,
            },
            found matches Some(cap) ==> cap.instance@ == instance@,
    {
        let mut i: usize = 0;
        assert(self.capabilities@.skip(0) =~= self.capabilities@);
        while i < self.capabilities.len()
            invariant
                i <= self.capabilities.len(),
                self.capability_of(instance@) == crate::search::first_where(
                    self.capabilities@.skip(i as int),
                    is_of_instance(instance@),
                ),
            decreases self.capabilities.len() - i,
        {
            let cap = &self.capabilities[i];
            if text_equal(cap.instance.as_str(), instance) {
                return Some(cap);
            }
            assert(self.capabilities@.skip(i as int).skip(1) =~= self.capabilities@.skip(i + 1));
            i += 1;
        }
        None
    }
}

/// What the platform reports of one capability.
#[derive(Clone, Debug)]
pub struct DeviceCapabilityState {
    pub kind: DeviceCapabilityKind,
    pub instance: String,
    pub state: JsonValue,
}

impl DeviceCapabilityState {
    /// The document under the `value` member of the state.
    pub open spec fn reported(self) -> Option<Json> {
        crate::json::json_content(self.state).member("value"@)
    }

    /// The value that the platform reports, which stands under `/value` of the state.
    pub fn value(&self) -> (value: Option<&JsonValue>)
        ensures
            match value {
                Some(value) => self.reported() == Some(crate::json::json_content(*value)),
                None => self.reported() is None,
            },
    {
        proof {
            reveal_strlit("/value");
            reveal_strlit("value");
            assert("/value"@.skip(1) =~= "value"@);
        }
        self.state.pointer("/value")
    }
}

/// Whether a report is of that instance.
pub open spec fn reports_instance(instance: Seq<char>) -> spec_fn(DeviceCapabilityState) -> bool {
    |cap: DeviceCapabilityState| cap.instance@ == instance
}

/// A reported brightness as the nearest number that a device state can hold.
pub open spec fn brightness_level(reported: i64) -> u8 {
    if reported < 0 {
        0
    } else if reported > 255 {
        255
    } else {
        reported as u8
    }
}

/// What the platform reports of one device.
#[derive(Clone, Debug)]
pub struct HttpDeviceState {
    pub sku: String,
    pub device: String,
    pub capabilities: Vec<DeviceCapabilityState>,
}

impl HttpDeviceState {
    /// The first report of that instance.
    pub open spec fn capability_of(self, instance: Seq<char>) -> Option<DeviceCapabilityState> {
        crate::search::first_where(self.capabilities@, reports_instance(instance))
    }

    /// The number in the first report of that instance, where the value is one.
    pub open spec fn number_of(self, instance: Seq<char>) -> Option<i64> {
        match self.capability_of(instance) {
            Some(cap) => match cap.reported() {
                Some(value) => value.as_integer(),
                None => None,
            },
            None => None,
        }
    }

    /// What the reports tell of power and brightness. Where they give a number of one alone, the
    /// device counts as off, or as dark; where they give a number of neither, they tell nothing.
    pub open spec fn power_and_brightness(self) -> Option<DeviceState> {
        let power = self.number_of("powerSwitch"@);
        let brightness = self.number_of("brightness"@);
        if power is None && brightness is None {
            None
        } else {
            Some(
                DeviceState {
                    on: power matches Some(power) && power != 0,
                    brightness: match brightness {
                        Some(brightness) => brightness_level(brightness),
                        None => 0,
                    },
                },
            )
        }
    }

    pub fn number_by_instance(&self, instance: &str) -> (number: Option<i64>)
        ensures
            number == self.number_of(instance@),
    {
        match self.capability_by_instance(instance) {
            Some(cap) => match cap.value() {
                Some(value) => value.as_i64(),
                None => None,
            },
            None => None,
        }
    }

    pub fn device_state(&self) -> (state: Option<DeviceState>)
        ensures
            state == self.power_and_brightness(),
    {
        let power: Option<i64> = self.number_by_instance("powerSwitch");
        let brightness: Option<i64> = self.number_by_instance("brightness");
        if power.is_none() && brightness.is_none() {
            return None;
        }
        let on: bool = match power {
            Some(power) => power != 0,
            None => false,
        };
        let brightness: u8 = match brightness {
            Some(brightness) => if brightness < 0 {
                0
            } else if brightness > 255 {
                255
            } else {
                brightness as u8
            },
            None => 0,
        };
        Some(DeviceState { on, brightness })
    }

    pub fn capability_by_instance(&self, instance: &str) -> (found: Option<&DeviceCapabilityState>)
        ensures
            match found {
                Some(cap) => self.capability_of(instance@) == Some(*cap),
                None => self.capability_of(instance@) is None,
            },
            found matches Some(cap) ==> cap.instance@ == instance@,
    {
        let mut i: usize = 0;
        assert(self.capabilities@.skip(0) =~= self.capabilities@);
        while i < self.capabilities.len()
            invariant
                i <= self.capabilities.len(),
                self.capability_of(instance@) == crate::search::first_where(
                    self.capabilities@.skip(i as int),
                    reports_instance(instance@),
                ),
            decreases self.capabilities.len() - i,
        {
            let cap = &self.capabilities[i];
            if text_equal(cap.instance.as_str(), instance) {
                return Some(cap);
            }
            assert(self.capabilities@.skip(i as int).skip(1) =~= self.capabilities@.skip(i + 1));
            i += 1;
        }
        None
    }
}

} // verus!
