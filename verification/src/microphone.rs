//! The kinds of microphone the device can be set up for.

use vstd::prelude::*;

verus! {

/// The kind of microphone plugged into the device.
#[derive(Copy, Clone, Debug, PartialEq, Eq, Structural)]
pub enum MicrophoneType {
    Dynamic,
    Condenser,
    Jack,
}

impl MicrophoneType {
    /// The type code that the device expects.
    pub open spec fn spec_id(self) -> u8 {
        match self {
            MicrophoneType::Dynamic => 0x01,
            MicrophoneType::Condenser => 0x02,
            MicrophoneType::Jack => 0x03,
        }
    }

    /// The type code that the device expects.
    pub fn id(&self) -> (id: u8)
        ensures
            id == self.spec_id(),
    {
        match self {
            MicrophoneType::Dynamic => 0x01,
            MicrophoneType::Condenser => 0x02,
            MicrophoneType::Jack => 0x03,
        }
    }
}

} // verus!
