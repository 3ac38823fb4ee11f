//! The entities that Home Assistant sees over MQTT.

pub mod base;
pub mod capability_mode;
pub mod instance;
pub mod mode_laws;
pub mod select;
pub mod switch;
pub mod switch_laws;
