//! A connection that is ready for commands, and the commands it offers.
//!
//! A [`GoXLR`] owns what the protocol remembers between requests: above all
//! the sequence counter. Each operation numbers a request, builds its frame
//! and hands it out as a [`RoundTrip`] for the driver to carry out. Round
//! trips of one connection are carried out one at a time, in the order in
//! which they were handed out.

use crate::buttonstate::ButtonStates;
use crate::channelstate::ChannelState;
use crate::commands::{Command, SystemInfoCommand};
use crate::connection::{Connection, ConnectionState};
use crate::dcp::DCPCategory;
use crate::encoding::{
    button_states_body, channel_state_body, dcp_category_body, display_mode_body, fader_body,
    microphone_body, microphone_reset_body, spec_button_states_body, spec_display_mode_body,
    spec_fader_body, spec_microphone_body, spec_microphone_reset_body, volume_body,
};
use crate::endian::u16_le_bytes;
use crate::error::RequestError;
use crate::frame::{lemma_decode_encode, spec_decode, FrameError, FrameView};
use crate::microphone::MicrophoneType;
use crate::roundtrip::{RoundTrip, RoundTripView};
use crate::routing::InputDevice;
use crate::transfer::{
    await_interrupt, control_read, control_write, spec_await_interrupt, spec_control_read,
    spec_control_write, ControlRead, ControlWrite, DeviceDescriptor, DeviceInfo, InterruptRead,
    RequestType, CONTROL_TIMEOUT_MILLIS,
};
use crate::types::{ChannelName, FaderName};
use vstd::prelude::*;

verus! {

/// The sequence number that follows `count`: one more, and zero after 65535.
pub open spec fn next_sequence(count: u16) -> u16 {
    if count == 0xFFFF {
        0
    } else {
        (count + 1) as u16
    }
}

/// A connection to a device that went through bring-up.
#[derive(Debug, PartialEq, Eq)]
pub struct GoXLR {
    device: DeviceInfo,
    timeout_millis: u64,
    language: u16,
    command_count: u16,
    device_is_claimed: bool,
}

/// A connection as a value.
pub struct GoXLRView {
    /// The device at the other end.
    pub device: DeviceInfo,
    /// The time allowed for each control transfer, in milliseconds.
    pub timeout_millis: u64,
    /// The language in which the device's strings are read.
    pub language: u16,
    /// The sequence number of the last request; zero before the first.
    pub command_count: u16,
    /// Whether the control interface could be claimed.
    pub device_is_claimed: bool,
}

impl View for GoXLR {
    type V = GoXLRView;

    closed spec fn view(&self) -> GoXLRView {
        GoXLRView {
            device: self.device,
            timeout_millis: self.timeout_millis,
            language: self.language,
            command_count: self.command_count,
            device_is_claimed: self.device_is_claimed,
        }
    }
}

impl GoXLRView {
    /// A connection fresh from bring-up: no request was made yet, and a
    /// control transfer may take a second.
    pub open spec fn fresh(device: DeviceInfo, language: u16, device_is_claimed: bool) -> GoXLRView {
        GoXLRView {
            device,
            timeout_millis: CONTROL_TIMEOUT_MILLIS,
            language,
            command_count: 0,
            device_is_claimed,
        }
    }

    /// The connection after one more request: only the counter moved.
    pub open spec fn advanced(self) -> GoXLRView {
        GoXLRView { command_count: next_sequence(self.command_count), ..self }
    }

    /// The connection after `requests` more requests.
    pub open spec fn advanced_by(self, requests: nat) -> GoXLRView
        decreases requests,
    {
        if requests == 0 {
            self
        } else {
            self.advanced_by((requests - 1) as nat).advanced()
        }
    }

    /// The round trip of the connection's next request: the frame of
    /// `command` and `body` under the next sequence number.
    pub open spec fn request(self, command: Command, body: Seq<u8>) -> RoundTripView {
        RoundTripView::start(
            command.spec_command_id(),
            next_sequence(self.command_count),
            body,
            self.timeout_millis,
        )
    }
}

impl GoXLR {
    /// The connection that bring-up ends with.
    pub(crate) fn new(device: DeviceInfo, language: u16, device_is_claimed: bool) -> (goxlr: GoXLR)
        ensures
            goxlr@ == GoXLRView::fresh(device, language, device_is_claimed),
    {
        GoXLR {
            device,
            timeout_millis: CONTROL_TIMEOUT_MILLIS,
            language,
            command_count: 0,
            device_is_claimed,
        }
    }

    /// Begins the search for a device: the connection that is not opened
    /// yet.
    pub fn open() -> (connection: Connection)
        ensures
            connection@ == ConnectionState::Enumerating,
    {
        Connection::open()
    }

    /// Begins bring-up on a device that was opened already.
    pub fn from_device(device: DeviceInfo) -> (connection: Connection)
        ensures
            connection@ == (ConnectionState::ReadingLanguages { device }),
    {
        Connection::from_device(device)
    }

    /// What was read of the device's descriptor.
    pub fn usb_device_descriptor(&self) -> (descriptor: &DeviceDescriptor)
        ensures
            *descriptor == self@.device.descriptor,
    {
        &self.device.descriptor
    }

    /// Whether the control interface could be claimed during bring-up.
    pub fn usb_device_is_claimed(&self) -> (claimed: bool)
        ensures
            claimed == self@.device_is_claimed,
    {
        self.device_is_claimed
    }

    /// The number of the bus that the device is on.
    pub fn usb_bus_number(&self) -> (bus_number: u8)
        ensures
            bus_number == self@.device.bus_number,
    {
        self.device.bus_number
    }

    /// The device's address on its bus.
    pub fn usb_address(&self) -> (address: u8)
        ensures
            address == self@.device.address,
    {
        self.device.address
    }

    /// The language in which the device's strings are read.
    pub fn language(&self) -> (language: u16)
        ensures
            language == self@.language,
    {
        self.language
    }

    /// The sequence number of the last request; zero before the first.
    pub fn command_count(&self) -> (count: u16)
        ensures
            count == self@.command_count,
    {
        self.command_count
    }

    /// Describes a control transfer from the device's interface, with the
    /// connection's time limit.
    pub fn read_control(
        &self,
        request_type: RequestType,
        request: u8,
        value: u16,
        index: u16,
        length: usize,
    ) -> (read: ControlRead)
        ensures
            read == spec_control_read(
                request_type,
                request,
                value,
                index,
                length,
                self@.timeout_millis,
            ),
    {
        control_read(request_type, request, value, index, length, self.timeout_millis)
    }

    /// Describes a control transfer of `data` to the device's interface,
    /// with the connection's time limit.
    pub fn write_control(
        &self,
        request_type: RequestType,
        request: u8,
        value: u16,
        index: u16,
        data: &[u8],
    ) -> (write: ControlWrite)
        ensures
            write@ == spec_control_write(
                request_type,
                request,
                value,
                index,
                data@,
                self@.timeout_millis,
            ),
    {
        let mut bytes: Vec<u8> = Vec::new();
        bytes.extend_from_slice(data);
        assert(bytes@ =~= data@);
        control_write(request_type, request, value, index, bytes, self.timeout_millis)
    }

    /// Describes the wait for the device's readiness signal.
    pub fn await_interrupt(&self, duration_millis: u64) -> (read: InterruptRead)
        ensures
            read == spec_await_interrupt(duration_millis),
    {
        await_interrupt(duration_millis)
    }

    /// Numbers the next request, builds its frame and hands out its round
    /// trip.
    pub fn request_data(&mut self, command: Command, body: &[u8]) -> (trip: RoundTrip)
        ensures
            trip@ == old(self)@.request(command, body@),
            final(self)@ == old(self)@.advanced(),
    {
        let command_index: u16 = if self.command_count == 0xFFFF {
            0
        } else {
            self.command_count + 1
        };
        self.command_count = command_index;
        RoundTrip::new(command.command_id(), command_index, body, self.timeout_millis)
    }

    /// Asks whether the device supports a category of the control protocol.
    /// The reply is read by `decode_dcp_support`.
    pub fn supports_dcp_category(&mut self, category: DCPCategory) -> (trip: RoundTrip)
        ensures
            trip@ == old(self)@.request(
                Command::SystemInfo(SystemInfoCommand::SupportsDCPCategory),
                u16_le_bytes(category.spec_id()),
            ),
            final(self)@ == old(self)@.advanced(),
    {
        let out = dcp_category_body(category);
        self.request_data(
            Command::SystemInfo(SystemInfoCommand::SupportsDCPCategory),
            out.as_slice(),
        )
    }

    /// Asks for the firmware version. The request has no body.
    pub fn get_system_info(&mut self) -> (trip: RoundTrip)
        ensures
            trip@ == old(self)@.request(
                Command::SystemInfo(SystemInfoCommand::FirmwareVersion),
                Seq::<u8>::empty(),
            ),
            final(self)@ == old(self)@.advanced(),
    {
        let body: [u8; 0] = [];
        assert(body@ =~= Seq::<u8>::empty());
        self.request_data(Command::SystemInfo(SystemInfoCommand::FirmwareVersion), body.as_slice())
    }

    /// Assigns a channel to a fader.
    pub fn set_fader(&mut self, fader: FaderName, channel: ChannelName) -> (trip: RoundTrip)
        ensures
            trip@ == old(self)@.request(Command::SetFader(fader), spec_fader_body(channel)),
            final(self)@ == old(self)@.advanced(),
    {
        let body = fader_body(channel);
        self.request_data(Command::SetFader(fader), body.as_slice())
    }

    /// Sets the volume of a channel.
    pub fn set_volume(&mut self, channel: ChannelName, volume: u8) -> (trip: RoundTrip)
        ensures
            trip@ == old(self)@.request(Command::SetChannelVolume(channel), seq![volume]),
            final(self)@ == old(self)@.advanced(),
    {
        let body = volume_body(volume);
        self.request_data(Command::SetChannelVolume(channel), body.as_slice())
    }

    /// Mutes or unmutes a channel.
    pub fn set_channel_state(&mut self, channel: ChannelName, state: ChannelState) -> (trip:
        RoundTrip)
        ensures
            trip@ == old(self)@.request(Command::SetChannelState(channel), seq![state.spec_id()]),
            final(self)@ == old(self)@.advanced(),
    {
        let body = channel_state_body(state);
        self.request_data(Command::SetChannelState(channel), body.as_slice())
    }

    /// Sets how every button is lit: `data` holds at each button's position
    /// the state of that button.
    pub fn set_button_states(&mut self, data: [ButtonStates; 24]) -> (trip: RoundTrip)
        ensures
            trip@ == old(self)@.request(Command::SetButtonStates(), spec_button_states_body(data@)),
            final(self)@ == old(self)@.advanced(),
    {
        let body = button_states_body(&data);
        self.request_data(Command::SetButtonStates(), body.as_slice())
    }

    /// Sets the colours of the buttons. The map is sent as it is.
    pub fn set_button_colours(&mut self, data: [u8; 328]) -> (trip: RoundTrip)
        ensures
            trip@ == old(self)@.request(Command::SetColourMap(), data@),
            final(self)@ == old(self)@.advanced(),
    {
        self.request_data(Command::SetColourMap(), data.as_slice())
    }

    /// Sets what a fader's display shows: a gradient, a meter, both or
    /// neither.
    pub fn set_fader_display_mode(&mut self, fader: FaderName, gradient: bool, meter: bool) -> (trip:
        RoundTrip)
        ensures
            trip@ == old(self)@.request(
                Command::SetFaderDisplayMode(fader),
                spec_display_mode_body(gradient, meter),
            ),
            final(self)@ == old(self)@.advanced(),
    {
        let body = display_mode_body(gradient, meter);
        self.request_data(Command::SetFaderDisplayMode(fader), body.as_slice())
    }

    /// Sets the bitmap on a fader's scribble strip. The bitmap is sent as it
    /// is.
    pub fn set_fader_scribble(&mut self, fader: FaderName, data: [u8; 1024]) -> (trip: RoundTrip)
        ensures
            trip@ == old(self)@.request(Command::SetScribble(fader), data@),
            final(self)@ == old(self)@.advanced(),
    {
        self.request_data(Command::SetScribble(fader), data.as_slice())
    }

    /// Replaces the routing row of an input. The row is sent as it is.
    pub fn set_routing(&mut self, input_device: InputDevice, data: [u8; 22]) -> (trip: RoundTrip)
        ensures
            trip@ == old(self)@.request(Command::SetRouting(input_device), data@),
            final(self)@ == old(self)@.advanced(),
    {
        self.request_data(Command::SetRouting(input_device), data.as_slice())
    }

    /// Sets the microphone's type and gain. The device wants its
    /// configuration reset first, so this takes two requests of the same
    /// command: the reset, whose body is all zero, and then the
    /// configuration. The driver carries out the first and hands its result
    /// to `after_microphone_reset`, which says whether the second is to be
    /// carried out; the result of the second is then that of the operation.
    pub fn set_microphone_type(&mut self, microphone_type: MicrophoneType, gain: u8) -> (trips: (
        RoundTrip,
        RoundTrip,
    ))
        ensures
            trips.0@ == old(self)@.request(
                Command::SetMicrophoneType(),
                spec_microphone_reset_body(),
            ),
            trips.1@ == old(self)@.advanced().request(
                Command::SetMicrophoneType(),
                spec_microphone_body(microphone_type, gain),
            ),
            final(self)@ == old(self)@.advanced().advanced(),
    {
        let reset_body = microphone_reset_body();
        let reset = self.request_data(Command::SetMicrophoneType(), reset_body.as_slice());
        let body = microphone_body(microphone_type, gain);
        let configure = self.request_data(Command::SetMicrophoneType(), body.as_slice());
        (reset, configure)
    }

    /// Asks which buttons are pressed and where the mixers stand. The
    /// request has no body; the reply is read by `decode_button_states`.
    pub fn get_button_states(&mut self) -> (trip: RoundTrip)
        ensures
            trip@ == old(self)@.request(Command::GetButtonStates, Seq::<u8>::empty()),
            final(self)@ == old(self)@.advanced(),
    {
        let body: [u8; 0] = [];
        assert(body@ =~= Seq::<u8>::empty());
        self.request_data(Command::GetButtonStates, body.as_slice())
    }
}

/// Decides how setting the microphone goes on once the reset is over. A
/// reset that failed is the failure of the whole operation: it is handed on
/// as it is, and the configuration is not sent. After a reset that went
/// through, the configuration is the round trip to carry out next.
pub fn after_microphone_reset(reset: Result<Vec<u8>, RequestError>, configure: RoundTrip) -> (next:
    Result<RoundTrip, RequestError>)
    ensures
        match reset {
            Ok(_) => next matches Ok(trip) && trip@ == configure@,
            Err(error) => next == Err::<RoundTrip, RequestError>(error),
        },
{
    match reset {
        Ok(_) => Ok(configure),
        Err(error) => Err(error),
    }
}

/// Requests move nothing but the counter: after any number of them the
/// connection is as it was, with the counter at the initial count plus that
/// number, modulo 65536.
pub proof fn lemma_advanced_by(goxlr: GoXLRView, requests: nat)
    ensures
        goxlr.advanced_by(requests) == (GoXLRView {
            command_count: ((goxlr.command_count + requests) % 0x1_0000) as u16,
            ..goxlr
        }),
    decreases requests,
{
    if requests > 0 {
        lemma_advanced_by(goxlr, (requests - 1) as nat);
    }
}

/// The frame of a request decodes to what was asked for: the identifier of
/// the command, the sequence number that follows the connection's count, and
/// the body, for every body of at most 65535 bytes.
pub proof fn lemma_request_frame(goxlr: GoXLRView, command: Command, body: Seq<u8>)
    requires
        body.len() <= 0xFFFF,
    ensures
        spec_decode(goxlr.request(command, body).frame) == Ok::<FrameView, FrameError>(
            FrameView {
                command_id: command.spec_command_id(),
                sequence: next_sequence(goxlr.command_count),
                body,
            },
        ),
{
    lemma_decode_encode(command.spec_command_id(), next_sequence(goxlr.command_count), body);
}

/// The body that resets the microphone is eight bytes of zero; the body
/// that configures it is eight bytes with the type code in byte 0, the gain
/// in byte 6 and zero elsewhere.
pub proof fn lemma_microphone_bodies(microphone_type: MicrophoneType, gain: u8)
    ensures
        spec_microphone_reset_body().len() == 8,
        forall|i: int| 0 <= i < 8 ==> spec_microphone_reset_body()[i] == 0,
        spec_microphone_body(microphone_type, gain).len() == 8,
        spec_microphone_body(microphone_type, gain)[0] == microphone_type.spec_id(),
        spec_microphone_body(microphone_type, gain)[6] == gain,
        forall|i: int|
            0 <= i < 8 && i != 0 && i != 6 ==> spec_microphone_body(microphone_type, gain)[i] == 0,
{
    let body = spec_microphone_body(microphone_type, gain);
    assert(body.len() == 8);
    assert(body[0] == microphone_type.spec_id());
    assert(body[1] == 0);
    assert(body[2] == 0);
    assert(body[3] == 0);
    assert(body[4] == 0);
    assert(body[5] == 0);
    assert(body[6] == gain);
    assert(body[7] == 0);
}

/// Setting the microphone takes two requests of the same command, numbered
/// one after the other: the first with the body that resets the
/// configuration, the second with the body that holds the type and the gain.
pub proof fn lemma_microphone_requests(goxlr: GoXLRView, microphone_type: MicrophoneType, gain: u8)
    ensures
        ({
            let reset = goxlr.request(Command::SetMicrophoneType(), spec_microphone_reset_body());
            let configure = goxlr.advanced().request(
                Command::SetMicrophoneType(),
                spec_microphone_body(microphone_type, gain),
            );
            &&& reset.command_id == Command::SetMicrophoneType().spec_command_id()
            &&& configure.command_id == reset.command_id
            &&& configure.sequence == next_sequence(reset.sequence)
            &&& spec_decode(reset.frame) == Ok::<FrameView, FrameError>(
                FrameView {
                    command_id: reset.command_id,
                    sequence: reset.sequence,
                    body: spec_microphone_reset_body(),
                },
            )
            &&& spec_decode(configure.frame) == Ok::<FrameView, FrameError>(
                FrameView {
                    command_id: configure.command_id,
                    sequence: configure.sequence,
                    body: spec_microphone_body(microphone_type, gain),
                },
            )
        }),
{
    let command = Command::SetMicrophoneType();
    let reset_body = spec_microphone_reset_body();
    let body = spec_microphone_body(microphone_type, gain);
    lemma_microphone_bodies(microphone_type, gain);
    assert(reset_body.len() <= 0xFFFF);
    assert(body.len() <= 0xFFFF);
    let reset = goxlr.request(command, reset_body);
    let configure = goxlr.advanced().request(command, body);
    assert(reset.command_id == command.spec_command_id());
    assert(reset.sequence == next_sequence(goxlr.command_count));
    assert(configure.command_id == command.spec_command_id());
    assert(goxlr.advanced().command_count == reset.sequence);
    assert(configure.sequence == next_sequence(reset.sequence));
    lemma_request_frame(goxlr, command, reset_body);
    lemma_request_frame(goxlr.advanced(), command, body);
}

} // verus!
