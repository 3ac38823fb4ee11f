//! What an entity sends.

use vstd::prelude::*;

verus! {

/// One MQTT message to send.
#[derive(Clone, Debug)]
pub struct Publication {
    pub topic: String,
    pub payload: String,
}

} // verus!
