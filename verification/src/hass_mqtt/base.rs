//! What every entity's discovery config has in common.

use crate::service::device::Device as ServiceDevice;
use crate::service::hass::{availability_topic, topic_safe_id};
use vstd::prelude::*;

verus! {

/// Where an entity comes from: this bridge.
#[derive(Clone, Debug)]
pub struct Origin {
    pub name: String,
    pub sw_version: String,
    pub url: String,
}

impl Origin {
    pub open spec fn is_bridge(self) -> bool {
        &&& self.name@ == "govee2mqtt"@
        &&& self.sw_version@ == "0.1.0"@
        &&& self.url@ == "https://github.com/wez/govee2mqtt"@
    }
}

impl Default for Origin {
    fn default() -> (origin: Self)
        ensures
            origin.is_bridge(),
    {
        Origin {
            name: "govee2mqtt".to_owned(),
            sw_version: "0.1.0".to_owned(),
            url: "https://github.com/wez/govee2mqtt".to_owned(),
        }
    }
}

/// The device that an entity belongs to, as Home Assistant groups entities.
#[derive(Clone, Debug)]
pub struct Device {
    pub name: String,
    pub manufacturer: String,
    pub model: String,
    pub identifier: String,
    pub via_device: Option<String>,
}

impl Device {
    pub open spec fn describes(self, device: ServiceDevice) -> bool {
        &&& self.name@ == device.shown_name()
        &&& self.manufacturer@ == "Govee"@
        &&& self.model@ == device.sku@
        &&& self.identifier@ == "gv2mqtt-"@ + crate::service::hass::device_topic_id(device)
        &&& self.via_device matches Some(via) && via@ == "gv2mqtt"@
    }

    pub fn for_device(device: &ServiceDevice) -> (described: Self)
        ensures
            described.describes(*device),
    {
        let id: String = topic_safe_id(device);
        let mut identifier: String = "gv2mqtt-".to_owned();
        identifier.append(id.as_str());
        Device {
            name: device.name(),
            manufacturer: "Govee".to_owned(),
            model: device.sku.clone(),
            identifier,
            via_device: Some("gv2mqtt".to_owned()),
        }
    }
}

#[derive(Clone, Debug)]
pub struct EntityConfig {
    pub availability_topic: String,
    pub name: Option<String>,
    pub device_class: Option<String>,
    pub origin: Origin,
    pub device: Device,
    pub unique_id: String,
    pub entity_category: Option<String>,
    pub icon: Option<String>,
}

/// The id of a device's entity for one capability: `gv2mqtt-<id>-<instance>`.
pub open spec fn entity_unique_id(id: Seq<char>, instance: Seq<char>) -> Seq<char> {
    "gv2mqtt-"@ + id + "-"@ + instance
}

impl EntityConfig {
    /// The config of an entity of that device, with that name and id, of no particular class,
    /// category or icon.
    pub open spec fn is_plain_entity(
        self,
        device: ServiceDevice,
        name: Seq<char>,
        instance: Seq<char>,
    ) -> bool {
        &&& self.availability_topic@ == "gv2mqtt/availability"@
        &&& self.name matches Some(shown) && shown@ == name
        &&& self.device_class is None
        &&& self.origin.is_bridge()
        &&& self.device.describes(device)
        &&& self.unique_id@ == entity_unique_id(
            crate::service::hass::device_topic_id(device),
            instance,
        )
        &&& self.entity_category is None
        &&& self.icon is None
    }

    pub fn plain_entity(device: &ServiceDevice, name: String, instance: &str) -> (config: Self)
        ensures
            config.is_plain_entity(*device, name@, instance@),
    {
        let id: String = topic_safe_id(device);
        let mut unique_id: String = "gv2mqtt-".to_owned();
        unique_id.append(id.as_str());
        unique_id.append("-");
        unique_id.append(instance);
        EntityConfig {
            availability_topic: availability_topic(),
            name: Some(name),
            device_class: None,
            origin: Origin::default(),
            device: Device::for_device(device),
            unique_id,
            entity_category: None,
            icon: None,
        }
    }
}

/// An entity's config names the availability topic of the bridge, the entity's own name and id,
/// the bridge and the device; it gives no class, category or icon.
pub proof fn law_plain_entity(
    config: EntityConfig,
    device: ServiceDevice,
    name: Seq<char>,
    instance: Seq<char>,
)
    requires
        config.is_plain_entity(device, name, instance),
    ensures
        config.availability_topic@ == "gv2mqtt/availability"@,
        config.name matches Some(shown) && shown@ == name,
        config.device_class is None,
        config.entity_category is None,
        config.icon is None,
        config.unique_id@ == "gv2mqtt-"@ + crate::service::hass::device_topic_id(device) + "-"@
            + instance,
        config.origin.name@ == "govee2mqtt"@,
        config.origin.sw_version@ == "0.1.0"@,
        config.origin.url@ == "https://github.com/wez/govee2mqtt"@,
        config.device.name@ == device.shown_name(),
        config.device.manufacturer@ == "Govee"@,
        config.device.model@ == device.sku@,
        config.device.identifier@ == "gv2mqtt-"@ + crate::service::hass::device_topic_id(device),
        config.device.via_device matches Some(via) && via@ == "gv2mqtt"@,
{
}

} // verus!
