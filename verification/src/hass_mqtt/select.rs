//! Selects: entities that offer a list of options.

use super::base::EntityConfig;
use vstd::prelude::*;

verus! {

#[derive(Clone, Debug)]
pub struct SelectConfig {
    pub base: EntityConfig,
    pub command_topic: String,
    pub state_topic: String,
    pub options: Vec<String>,
}

} // verus!
