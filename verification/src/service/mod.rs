//! What the bridge knows of each device.

pub mod device;
pub mod facts;
pub mod hass;
pub mod instance_map;
