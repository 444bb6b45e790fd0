//! Whether a channel is muted.

use vstd::prelude::*;

verus! {

/// The mute state of a channel.
#[derive(Copy, Clone, Debug, PartialEq, Eq, Structural)]
pub enum ChannelState {
    Muted,
    Unmuted,
}

impl ChannelState {
    /// The flag byte of the state: one when muted, zero when not.
    pub open spec fn spec_id(self) -> u8 {
        match self {
            ChannelState::Muted => 0x01,
            ChannelState::Unmuted => 0x00,
        }
    }

    /// The flag byte of the state: one when muted, zero when not.
    pub fn id(&self) -> (id: u8)
        ensures
            id == self.spec_id(),
    {
        match self {
            ChannelState::Muted => 0x01,
            ChannelState::Unmuted => 0x00,
        }
    }
}

} // verus!
