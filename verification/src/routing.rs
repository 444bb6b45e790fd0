//! The inputs of the routing matrix.

use vstd::prelude::*;

verus! {

/// One side of a stereo input that the routing matrix can send to the outputs.
#[derive(Copy, Clone, Debug, PartialEq, Eq, Structural)]
pub enum InputDevice {
    MicrophoneLeft,
    MicrophoneRight,
    MusicLeft,
    MusicRight,
    GameLeft,
    GameRight,
    ChatLeft,
    ChatRight,
    ConsoleLeft,
    ConsoleRight,
    LineInLeft,
    LineInRight,
    SystemLeft,
    SystemRight,
    SamplesLeft,
    SamplesRight,
}

impl InputDevice {
    /// The number of the input's row in the routing matrix.
    pub open spec fn spec_id(self) -> u8 {
        match self {
            InputDevice::MicrophoneLeft => 0x02,
            InputDevice::MicrophoneRight => 0x03,
            InputDevice::MusicLeft => 0x0e,
            InputDevice::MusicRight => 0x0f,
            InputDevice::GameLeft => 0x0a,
            InputDevice::GameRight => 0x0b,
            InputDevice::ChatLeft => 0x0c,
            InputDevice::ChatRight => 0x0d,
            InputDevice::ConsoleLeft => 0x06,
            InputDevice::ConsoleRight => 0x07,
            InputDevice::LineInLeft => 0x04,
            InputDevice::LineInRight => 0x05,
            InputDevice::SystemLeft => 0x08,
            InputDevice::SystemRight => 0x09,
            InputDevice::SamplesLeft => 0x10,
            InputDevice::SamplesRight => 0x11,
        }
    }

    /// The number of the input's row in the routing matrix.
    pub fn id(&self) -> (id: u8)
        ensures
            id == self.spec_id(),
    {
        match self {
            InputDevice::MicrophoneLeft => 0x02,
            InputDevice::MicrophoneRight => 0x03,
            InputDevice::MusicLeft => 0x0e,
            InputDevice::MusicRight => 0x0f,
            InputDevice::GameLeft => 0x0a,
            InputDevice::GameRight => 0x0b,
            InputDevice::ChatLeft => 0x0c,
            InputDevice::ChatRight => 0x0d,
            InputDevice::ConsoleLeft => 0x06,
            InputDevice::ConsoleRight => 0x07,
            InputDevice::LineInLeft => 0x04,
            InputDevice::LineInRight => 0x05,
            InputDevice::SystemLeft => 0x08,
            InputDevice::SystemRight => 0x09,
            InputDevice::SamplesLeft => 0x10,
            InputDevice::SamplesRight => 0x11,
        }
    }
}

} // verus!
