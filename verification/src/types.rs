//! The names of the mixer's channels and faders.

use vstd::prelude::*;

verus! {

/// A mixer channel, in the device's own numbering.
#[derive(Copy, Clone, Debug, PartialEq, Eq, Hash, Structural)]
pub enum ChannelName {
    Mic,
    LineIn,
    Console,
    System,
    Game,
    Chat,
    Sample,
    Music,
    Headphones,
    MicMonitor,
    LineOut,
}

impl ChannelName {
    /// The number by which the device knows the channel.
    pub open spec fn spec_id(self) -> u8 {
        match self {
            ChannelName::Mic => 0,
            ChannelName::LineIn => 1,
            ChannelName::Console => 2,
            ChannelName::System => 3,
            ChannelName::Game => 4,
            ChannelName::Chat => 5,
            ChannelName::Sample => 6,
            ChannelName::Music => 7,
            ChannelName::Headphones => 8,
            ChannelName::MicMonitor => 9,
            ChannelName::LineOut => 10,
        }
    }

    /// The number by which the device knows the channel.
    pub fn id(&self) -> (id: u8)
        ensures
            id == self.spec_id(),
    {
        match self {
            ChannelName::Mic => 0,
            ChannelName::LineIn => 1,
            ChannelName::Console => 2,
            ChannelName::System => 3,
            ChannelName::Game => 4,
            ChannelName::Chat => 5,
            ChannelName::Sample => 6,
            ChannelName::Music => 7,
            ChannelName::Headphones => 8,
            ChannelName::MicMonitor => 9,
            ChannelName::LineOut => 10,
        }
    }
}

/// One of the four fader slots.
#[derive(Copy, Clone, Debug, PartialEq, Eq, Hash, Structural)]
pub enum FaderName {
    A,
    B,
    C,
    D,
}

impl FaderName {
    /// The number by which the device knows the fader slot.
    pub open spec fn spec_id(self) -> u8 {
        match self {
            FaderName::A => 0,
            FaderName::B => 1,
            FaderName::C => 2,
            FaderName::D => 3,
        }
    }

    /// The number by which the device knows the fader slot.
    pub fn id(&self) -> (id: u8)
        ensures
            id == self.spec_id(),
    {
        match self {
            FaderName::A => 0,
            FaderName::B => 1,
            FaderName::C => 2,
            FaderName::D => 3,
        }
    }
}

} // verus!
