//! One device, as far as the entities of this library read it.

use super::instance_map::InstanceMap;
use crate::json::Json;
use crate::platform_api::{
    DeviceCapability, DeviceCapabilityState, HttpDeviceInfo, HttpDeviceState,
};
use vstd::prelude::*;

verus! {

/// Power and brightness, merged from the sources that report on a device.
#[derive(Clone, Copy, Debug, PartialEq, Eq, Structural)]
pub struct DeviceState {
    /// Whether the device is powered on.
    pub on: bool,
    /// The brightness in percent.
    pub brightness: u8,
}

#[derive(Clone, Debug)]
pub struct Device {
    pub sku: String,
    pub id: String,
    /// The name that the user gave the device.
    pub given_name: Option<String>,
    /// Metadata from the platform API, once it has been fetched.
    pub http_device_info: Option<HttpDeviceInfo>,
    /// The latest report of the platform API, once a poll has landed.
    pub http_device_state: Option<HttpDeviceState>,
    /// Power and brightness as the source that last told of them has it. A platform report that
    /// tells of them counts as such a source when it is set.
    pub merged_state: Option<DeviceState>,
    /// Whether the state has to be polled from the platform API.
    pub platform_poll: bool,
    /// Toggles decoded from IoT notifications.
    pub iot_toggles: InstanceMap<bool>,
    /// The fan speed decoded from IoT notifications.
    pub iot_speed: Option<u8>,
    /// Toggles as this bridge last commanded them.
    pub toggle_states: InstanceMap<bool>,
    /// Mode labels as this bridge last commanded them.
    pub mode_labels: InstanceMap<String>,
}

impl Device {
    /// The metadata of a capability.
    pub open spec fn capability(self, instance: Seq<char>) -> Option<DeviceCapability> {
        match self.http_device_info {
            Some(info) => info.capability_of(instance),
            None => None,
        }
    }

    /// The platform's report of a capability.
    pub open spec fn state_capability(self, instance: Seq<char>) -> Option<DeviceCapabilityState> {
        match self.http_device_state {
            Some(state) => state.capability_of(instance),
            None => None,
        }
    }

    /// The value in the platform's report of a capability.
    pub open spec fn platform_value(self, instance: Seq<char>) -> Option<Json> {
        match self.state_capability(instance) {
            Some(cap) => cap.reported(),
            None => None,
        }
    }

    /// The integer in the platform's report of a capability, where the value is one.
    pub open spec fn platform_number(self, instance: Seq<char>) -> Option<i64> {
        match self.http_device_state {
            Some(state) => state.number_of(instance),
            None => None,
        }
    }

    /// A device of which nothing has been reported: until another way to observe it is known, its
    /// state has to be polled from the platform API.
    pub fn new(sku: &str, id: &str) -> (device: Self)
        ensures
            device.sku@ == sku@,
            device.id@ == id@,
            device.given_name is None,
            device.http_device_info is None,
            device.http_device_state is None,
            device.merged_state is None,
            device.platform_poll,
            device.iot_toggles@ == Map::<Seq<char>, bool>::empty(),
            device.iot_speed is None,
            device.toggle_states@ == Map::<Seq<char>, bool>::empty(),
            device.mode_labels@ == Map::<Seq<char>, String>::empty(),
    {
        Device {
            sku: sku.to_owned(),
            id: id.to_owned(),
            given_name: None,
            http_device_info: None,
            http_device_state: None,
            merged_state: None,
            platform_poll: true,
            iot_toggles: InstanceMap::new(),
            iot_speed: None,
            toggle_states: InstanceMap::new(),
            mode_labels: InstanceMap::new(),
        }
    }

    /// The name to show: the user's own, or else the model.
    pub open spec fn shown_name(self) -> Seq<char> {
        match self.given_name {
            Some(name) => name@,
            None => self.sku@,
        }
    }

    pub fn name(&self) -> (name: String)
        ensures
            name@ == self.shown_name(),
    {
        match &self.given_name {
            Some(name) => name.clone(),
            None => self.sku.clone(),
        }
    }

    pub fn get_capability_by_instance(&self, instance: &str) -> (found: Option<&DeviceCapability>)
        ensures
            match found {
                Some(cap) => self.capability(instance@) == Some(*cap),
                None => self.capability(instance@) is None,
            },
            found matches Some(cap) ==> cap.instance@ == instance@,
    {
        match &self.http_device_info {
            Some(info) => info.capability_by_instance(instance),
            None => None,
        }
    }

    pub fn get_state_capability_by_instance(&self, instance: &str) -> (found: Option<
        &DeviceCapabilityState,
    >)
        ensures
            match found {
                Some(cap) => self.state_capability(instance@) == Some(*cap),
                None => self.state_capability(instance@) is None,
            },
            found matches Some(cap) ==> cap.instance@ == instance@,
    {
        match &self.http_device_state {
            Some(state) => state.capability_by_instance(instance),
            None => None,
        }
    }

    pub fn device_state(&self) -> (state: Option<DeviceState>)
        ensures
            state == self.merged_state,
    {
        self.merged_state
    }

    pub fn needs_platform_poll(&self) -> (needed: bool)
        ensures
            needed == self.platform_poll,
    {
        self.platform_poll
    }

    /// A toggle as the IoT notifications show it.
    pub fn iot_toggle_state(&self, instance: &str) -> (on: Option<bool>)
        ensures
            on == self.iot_toggles.known(instance@),
    {
        match self.iot_toggles.get(instance) {
            Some(on) => Some(*on),
            None => None,
        }
    }

    /// A toggle as this bridge last commanded it.
    pub fn get_toggle_capability_state(&self, instance: &str) -> (on: Option<bool>)
        ensures
            on == self.toggle_states.known(instance@),
    {
        match self.toggle_states.get(instance) {
            Some(on) => Some(*on),
            None => None,
        }
    }

    /// The label of the mode that this bridge last commanded.
    pub fn get_mode_capability_label(&self, instance: &str) -> (label: Option<&String>)
        ensures
            match label {
                Some(label) => self.mode_labels.known(instance@) == Some(*label),
                None => self.mode_labels.known(instance@) is None,
            },
    {
        self.mode_labels.get(instance)
    }

    pub fn iot_fan_speed(&self) -> (speed: Option<u8>)
        ensures
            speed == self.iot_speed,
    {
        self.iot_speed
    }

    pub fn set_http_device_info(&mut self, info: HttpDeviceInfo)
        ensures
            *final(self) == (Device { http_device_info: Some(info), ..*old(self) }),
    {
        self.http_device_info = Some(info);
    }

    /// Takes a platform report. Where it tells of power or brightness, it is now the source of
    /// the merged state; else the merged state stays.
    pub fn set_http_device_state(&mut self, state: HttpDeviceState)
        ensures
            *final(self) == (Device {
                http_device_state: Some(state),
                merged_state: match state.power_and_brightness() {
                    Some(told) => Some(told),
                    None => old(self).merged_state,
                },
                ..*old(self)
            }),
    {
        if let Some(told) = state.device_state() {
            self.merged_state = Some(told);
        }
        self.http_device_state = Some(state);
    }

    /// Takes power and brightness from a source other than the platform's reports.
    pub fn set_device_state(&mut self, state: DeviceState)
        ensures
            *final(self) == (Device { merged_state: Some(state), ..*old(self) }),
    {
        self.merged_state = Some(state);
    }

    pub fn set_toggle_capability_state(&mut self, instance: &str, on: bool)
        ensures
            final(self).toggle_states@ == old(self).toggle_states@.insert(instance@, on),
            *final(self) == (Device { toggle_states: final(self).toggle_states, ..*old(self) }),
    {
        self.toggle_states.set(instance, on);
    }

    pub fn set_mode_capability_label(&mut self, instance: &str, label: String)
        ensures
            final(self).mode_labels@ == old(self).mode_labels@.insert(instance@, label),
            *final(self) == (Device { mode_labels: final(self).mode_labels, ..*old(self) }),
    {
        self.mode_labels.set(instance, label);
    }

    pub fn set_iot_toggle_state(&mut self, instance: &str, on: bool)
        ensures
            final(self).iot_toggles@ == old(self).iot_toggles@.insert(instance@, on),
            *final(self) == (Device { iot_toggles: final(self).iot_toggles, ..*old(self) }),
    {
        self.iot_toggles.set(instance, on);
    }

    pub fn set_iot_fan_speed(&mut self, speed: u8)
        ensures
            *final(self) == (Device { iot_speed: Some(speed), ..*old(self) }),
    {
        self.iot_speed = Some(speed);
    }
}

} // verus!
