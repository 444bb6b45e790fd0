//! The command catalogue: which numeric identifier stands for which command.

use crate::routing::InputDevice;
use crate::types::{ChannelName, FaderName};
use vstd::prelude::*;

verus! {

/// A command identifier: the family's opcode above the low twelve bits, the
/// sub-identifier in them.
pub open spec fn pack_command_id(opcode: u32, sub_id: u32) -> u32 {
    (opcode << 12) | sub_id
}

/// A query about the device itself.
#[derive(Copy, Clone, Debug, PartialEq, Eq, Structural)]
pub enum SystemInfoCommand {
    FirmwareVersion,
    SupportsDCPCategory,
}

impl SystemInfoCommand {
    /// The identifier of the query.
    pub open spec fn spec_id(self) -> u32 {
        match self {
            SystemInfoCommand::FirmwareVersion => 2,
            SystemInfoCommand::SupportsDCPCategory => 1,
        }
    }

    /// The identifier of the query, which is its whole command identifier.
    pub fn id(&self) -> (id: u32)
        ensures
            id == self.spec_id(),
    {
        match self {
            SystemInfoCommand::FirmwareVersion => 2,
            SystemInfoCommand::SupportsDCPCategory => 1,
        }
    }
}

/// A command of the device: its family and, where the family has several
/// targets, the target.
#[derive(Copy, Clone, Debug, PartialEq, Eq, Structural)]
pub enum Command {
    SystemInfo(SystemInfoCommand),
    SetChannelState(ChannelName),
    SetChannelVolume(ChannelName),
    SetFader(FaderName),
    SetRouting(InputDevice),
    SetButtonStates(),
    SetMicrophoneType(),
    SetColourMap(),
    SetFaderDisplayMode(FaderName),
    SetScribble(FaderName),
    GetButtonStates,
}

impl Command {
    /// The opcode of the command's family.
    pub open spec fn family_opcode(self) -> u32 {
        match self {
            Command::SystemInfo(_) => 0x000,
            Command::SetChannelState(_) => 0x809,
            Command::SetChannelVolume(_) => 0x806,
            Command::SetFader(_) => 0x805,
            Command::SetRouting(_) => 0x804,
            Command::SetColourMap() => 0x803,
            Command::SetButtonStates() => 0x808,
            Command::SetFaderDisplayMode(_) => 0x814,
            Command::SetScribble(_) => 0x802,
            Command::GetButtonStates => 0x800,
            Command::SetMicrophoneType() => 0x80b,
        }
    }

    /// The sub-identifier of the command: the number of its target, zero
    /// where the family has none.
    pub open spec fn sub_id(self) -> u32 {
        match self {
            Command::SystemInfo(sub) => sub.spec_id(),
            Command::SetChannelState(channel) => channel.spec_id() as u32,
            Command::SetChannelVolume(channel) => channel.spec_id() as u32,
            Command::SetFader(fader) => fader.spec_id() as u32,
            Command::SetRouting(input_device) => input_device.spec_id() as u32,
            Command::SetColourMap() => 0,
            Command::SetButtonStates() => 0,
            Command::SetFaderDisplayMode(fader) => fader.spec_id() as u32,
            Command::SetScribble(fader) => fader.spec_id() as u32,
            Command::GetButtonStates => 0,
            Command::SetMicrophoneType() => 0,
        }
    }

    /// The numeric identifier of the command.
    pub open spec fn spec_command_id(self) -> u32 {
        pack_command_id(self.family_opcode(), self.sub_id())
    }

    /// The numeric identifier of the command.
    pub fn command_id(&self) -> (id: u32)
        ensures
            id == self.spec_command_id(),
    {
        match self {
            Command::SystemInfo(sub) => {
                let id: u32 = sub.id();
                assert(id == pack_command_id(0, id)) by (bit_vector);
                id
            },
            Command::SetChannelState(channel) => (0x809 << 12) | channel.id() as u32,
            Command::SetChannelVolume(channel) => (0x806 << 12) | channel.id() as u32,
            Command::SetFader(fader) => (0x805 << 12) | fader.id() as u32,
            Command::SetRouting(input_device) => (0x804 << 12) | input_device.id() as u32,
            Command::SetColourMap() => (0x803 << 12) | 0x00,
            Command::SetButtonStates() => (0x808 << 12) | 0x00,
            Command::SetFaderDisplayMode(fader) => (0x814 << 12) | fader.id() as u32,
            Command::SetScribble(fader) => (0x802 << 12) | fader.id() as u32,
            Command::GetButtonStates => (0x800 << 12) | 0x00,
            // The device knows several forms of this command; this is the one in use.
            Command::SetMicrophoneType() => (0x80b << 12) | 0x00,
        }
    }
}

/// Packing keeps both parts: the low twelve bits of an identifier are the
/// sub-identifier, the bits above them the opcode.
pub proof fn lemma_pack_command_id(opcode: u32, sub_id: u32)
    requires
        opcode < 0x10_0000,
        sub_id < 4096,
    ensures
        pack_command_id(opcode, sub_id) & 0xfff == sub_id,
        pack_command_id(opcode, sub_id) >> 12 == opcode,
{
    assert(((opcode << 12) | sub_id) & 0xfff == sub_id) by (bit_vector)
        requires
            opcode < 0x10_0000,
            sub_id < 4096,
    ;
    assert(((opcode << 12) | sub_id) >> 12 == opcode) by (bit_vector)
        requires
            opcode < 0x10_0000,
            sub_id < 4096,
    ;
}

/// Every command's sub-identifier fits the low twelve bits of its identifier
/// and is read back from them; the bits above hold the family's opcode.
pub proof fn lemma_command_id_parts(command: Command)
    ensures
        command.sub_id() < 4096,
        command.family_opcode() < 0x10_0000,
        command.spec_command_id() & 0xfff == command.sub_id(),
        command.spec_command_id() >> 12 == command.family_opcode(),
{
    lemma_pack_command_id(command.family_opcode(), command.sub_id());
}

/// Equal commands have equal identifiers, and no two commands share one.
pub proof fn lemma_command_id_unique(a: Command, b: Command)
    ensures
        a == b <==> a.spec_command_id() == b.spec_command_id(),
{
    lemma_command_id_parts(a);
    lemma_command_id_parts(b);
}

} // verus!
