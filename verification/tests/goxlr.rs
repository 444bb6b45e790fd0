use goxlr_usb::buttonstate::{ButtonSet, Buttons, ButtonStates};
use goxlr_usb::channelstate::ChannelState;
use goxlr_usb::commands::{Command, SystemInfoCommand};
use goxlr_usb::dcp::DCPCategory;
use goxlr_usb::encoding::{decode_button_states, decode_dcp_support};
use goxlr_usb::error::{RequestError, UsbError};
use goxlr_usb::frame::{decode_frame, encode_request, Frame, FrameError};
use goxlr_usb::goxlr::{after_microphone_reset, GoXLR};
use goxlr_usb::microphone::MicrophoneType;
use goxlr_usb::roundtrip::RoundTrip;
use goxlr_usb::routing::InputDevice;
use goxlr_usb::transfer::{
    Action, ControlRead, ControlWrite, DeviceDescriptor, DeviceInfo, Event, InterruptRead,
    RequestType,
};
use goxlr_usb::types::{ChannelName, FaderName};

fn ready() -> GoXLR {
    let device = DeviceInfo {
        descriptor: DeviceDescriptor { vendor_id: 0x1220, product_id: 0x8fe0 },
        bus_number: 1,
        address: 9,
    };
    let mut connection = GoXLR::open();
    connection.handle(Event::Enumerated(Ok(())));
    connection.handle(Event::Device(device));
    connection.handle(Event::Opened(Ok(())));
    connection.handle(Event::Languages(Ok(vec![0x0409])));
    connection.handle(Event::Configured(Ok(())));
    connection.handle(Event::Claimed(Ok(())));
    connection.handle(Event::ControlRead(Ok(vec![0; 24])));
    connection.handle(Event::ControlWritten(Ok(())));
    connection.handle(Event::ControlRead(Ok(vec![0; 1040])));
    connection.finish().unwrap().unwrap()
}

fn request_of(trip: &RoundTrip) -> Frame {
    decode_frame(trip.frame()).unwrap()
}

fn submit(frame: Vec<u8>) -> Action {
    Action::WriteControl(ControlWrite {
        request_type: 0x41,
        request: 2,
        value: 0,
        index: 0,
        data: frame,
        timeout_millis: 1000,
    })
}

fn fetch() -> Action {
    Action::ReadControl(ControlRead {
        request_type: 0xC1,
        request: 3,
        value: 0,
        index: 0,
        length: 1040,
        timeout_millis: 1000,
    })
}

fn carry_out(mut trip: RoundTrip, reply_body: &[u8]) -> Result<Vec<u8>, RequestError> {
    let reply = encode_request(trip.command_id(), trip.sequence(), reply_body);
    trip.handle(Event::ControlWritten(Ok(())));
    trip.handle(Event::Slept);
    trip.handle(Event::Interrupt(true));
    trip.handle(Event::ControlRead(Ok(reply)));
    trip.finish().unwrap()
}

#[test]
fn set_fader_after_opening_a_full_size_device() {
    let mut goxlr = ready();
    let trip = goxlr.set_fader(FaderName::A, ChannelName::Mic);
    assert_eq!(trip.command_id(), (0x805 << 12) | FaderName::A.id() as u32);
    assert_eq!(
        request_of(&trip),
        Frame {
            command_id: 0x0080_5000,
            sequence: 1,
            body: vec![ChannelName::Mic.id(), 0x00, 0x00, 0x00],
        }
    );
    assert_eq!(
        trip.frame(),
        &vec![0x00, 0x50, 0x80, 0x00, 4, 0, 1, 0, 0, 0, 0, 0, 0, 0, 0, 0, 0, 0, 0, 0]
    );
}

#[test]
fn round_trip_steps_come_in_order() {
    let mut goxlr = ready();
    let mut trip = goxlr.set_volume(ChannelName::Music, 200);
    let frame = trip.frame().clone();
    assert_eq!(trip.action(), Some(submit(frame)));
    assert!(!trip.is_done());
    trip.handle(Event::ControlWritten(Ok(())));
    assert_eq!(trip.action(), Some(Action::Sleep { millis: 10 }));
    trip.handle(Event::Slept);
    assert_eq!(
        trip.action(),
        Some(Action::ReadInterrupt(InterruptRead {
            endpoint: 0x81,
            length: 6,
            timeout_millis: 2000
        }))
    );
    trip.handle(Event::Interrupt(true));
    assert_eq!(trip.action(), Some(fetch()));
    assert!(!trip.is_done());
    trip.handle(Event::ControlRead(Ok(encode_request(0x0080_6007, 1, &[]))));
    assert_eq!(trip.action(), None);
    assert!(trip.is_done());
    assert_eq!(trip.finish(), Some(Ok(vec![])));
}

#[test]
fn reply_is_fetched_even_without_the_readiness_signal() {
    let mut goxlr = ready();
    let mut trip = goxlr.get_system_info();
    trip.handle(Event::ControlWritten(Ok(())));
    trip.handle(Event::Slept);
    trip.handle(Event::Interrupt(false));
    assert_eq!(trip.action(), Some(fetch()));
    trip.handle(Event::ControlRead(Ok(encode_request(2, 1, &[1, 0, 7, 0]))));
    assert_eq!(trip.finish(), Some(Ok(vec![1, 0, 7, 0])));
}

#[test]
fn unfinished_round_trip_has_no_result() {
    let mut goxlr = ready();
    let mut trip = goxlr.get_system_info();
    trip.handle(Event::ControlWritten(Ok(())));
    assert_eq!(trip.finish(), None);
}

#[test]
fn failed_submit_ends_the_round_trip() {
    let mut goxlr = ready();
    let mut trip = goxlr.set_volume(ChannelName::Mic, 1);
    trip.handle(Event::ControlWritten(Err(UsbError::Pipe)));
    assert_eq!(trip.action(), None);
    assert_eq!(trip.finish(), Some(Err(RequestError::Transport(UsbError::Pipe))));
    assert_eq!(goxlr.command_count(), 1);
}

#[test]
fn failed_fetch_ends_the_round_trip() {
    let mut goxlr = ready();
    let mut trip = goxlr.set_volume(ChannelName::Mic, 1);
    trip.handle(Event::ControlWritten(Ok(())));
    trip.handle(Event::Slept);
    trip.handle(Event::Interrupt(false));
    trip.handle(Event::ControlRead(Err(UsbError::Timeout)));
    assert_eq!(trip.finish(), Some(Err(RequestError::Transport(UsbError::Timeout))));
}

#[test]
fn reply_with_another_sequence_number_is_out_of_step() {
    let mut goxlr = ready();
    let mut trip = goxlr.set_volume(ChannelName::Mic, 1);
    trip.handle(Event::ControlWritten(Ok(())));
    trip.handle(Event::Slept);
    trip.handle(Event::Interrupt(true));
    trip.handle(Event::ControlRead(Ok(encode_request(0x0080_6000, 2, &[]))));
    assert_eq!(
        trip.finish(),
        Some(Err(RequestError::Desynchronized(FrameError::SequenceMismatch)))
    );
}

#[test]
fn reply_with_a_wrong_length_is_out_of_step() {
    let mut goxlr = ready();
    let mut trip = goxlr.set_volume(ChannelName::Mic, 1);
    trip.handle(Event::ControlWritten(Ok(())));
    trip.handle(Event::Slept);
    trip.handle(Event::Interrupt(true));
    let mut reply = encode_request(0x0080_6000, 1, &[1, 2]);
    reply.push(3);
    trip.handle(Event::ControlRead(Ok(reply)));
    assert_eq!(
        trip.finish(),
        Some(Err(RequestError::Desynchronized(FrameError::LengthMismatch)))
    );
}

#[test]
fn reply_without_a_whole_header_is_out_of_step() {
    let mut goxlr = ready();
    let mut trip = goxlr.set_volume(ChannelName::Mic, 1);
    trip.handle(Event::ControlWritten(Ok(())));
    trip.handle(Event::Slept);
    trip.handle(Event::Interrupt(true));
    trip.handle(Event::ControlRead(Ok(vec![0; 8])));
    assert_eq!(trip.finish(), Some(Err(RequestError::Desynchronized(FrameError::Truncated))));
}

#[test]
fn round_trip_ignores_events_out_of_turn() {
    let mut goxlr = ready();
    let mut trip = goxlr.set_volume(ChannelName::Mic, 1);
    let frame = trip.frame().clone();
    trip.handle(Event::Slept);
    trip.handle(Event::Interrupt(true));
    trip.handle(Event::ControlRead(Ok(encode_request(0x0080_6000, 1, &[]))));
    assert_eq!(trip.action(), Some(submit(frame)));
    trip.handle(Event::ControlWritten(Ok(())));
    trip.handle(Event::ControlWritten(Ok(())));
    assert_eq!(trip.action(), Some(Action::Sleep { millis: 10 }));
}

#[test]
fn finished_round_trip_stays_as_it_is() {
    let mut goxlr = ready();
    let mut trip = goxlr.set_volume(ChannelName::Mic, 1);
    trip.handle(Event::ControlWritten(Err(UsbError::Io)));
    trip.handle(Event::ControlWritten(Ok(())));
    trip.handle(Event::Slept);
    trip.handle(Event::ControlRead(Ok(encode_request(0x0080_6000, 1, &[]))));
    assert_eq!(trip.finish(), Some(Err(RequestError::Transport(UsbError::Io))));
}

#[test]
fn counter_counts_every_request() {
    let mut goxlr = ready();
    assert_eq!(goxlr.command_count(), 0);
    for n in 1..=300u16 {
        let trip = goxlr.set_volume(ChannelName::Game, 1);
        assert_eq!(trip.sequence(), n);
        assert_eq!(request_of(&trip).sequence, n);
        assert_eq!(carry_out(trip, &[]), Ok(vec![]));
        assert_eq!(goxlr.command_count(), n);
    }
}

#[test]
fn counter_wraps_after_65535() {
    let mut goxlr = ready();
    for _ in 0..65535u32 {
        goxlr.get_button_states();
    }
    assert_eq!(goxlr.command_count(), 65535);
    let trip = goxlr.get_button_states();
    assert_eq!(trip.sequence(), 0);
    assert_eq!(goxlr.command_count(), 0);
    let trip = goxlr.get_button_states();
    assert_eq!(trip.sequence(), 1);
    for _ in 0..70000u32 {
        goxlr.get_system_info();
    }
    assert_eq!(goxlr.command_count() as u32, (1 + 70000) % 65536);
}

#[test]
fn failed_requests_use_up_their_number_too() {
    let mut goxlr = ready();
    let mut trip = goxlr.set_volume(ChannelName::Mic, 1);
    trip.handle(Event::ControlWritten(Err(UsbError::Timeout)));
    let next = goxlr.set_volume(ChannelName::Mic, 1);
    assert_eq!(next.sequence(), 2);
}

#[test]
fn microphone_takes_a_reset_and_then_the_configuration() {
    let mut goxlr = ready();
    let (reset, configure) = goxlr.set_microphone_type(MicrophoneType::Condenser, 0x30);
    assert_eq!(goxlr.command_count(), 2);
    assert_eq!(
        request_of(&reset),
        Frame { command_id: 0x0080_b000, sequence: 1, body: vec![0; 8] }
    );
    assert_eq!(
        request_of(&configure),
        Frame { command_id: 0x0080_b000, sequence: 2, body: vec![0x02, 0, 0, 0, 0, 0, 0x30, 0] }
    );
    assert_eq!(reset.command_id(), Command::SetMicrophoneType().command_id());
    assert_eq!(configure.command_id(), Command::SetMicrophoneType().command_id());
    assert_eq!(carry_out(reset, &[]), Ok(vec![]));
    assert_eq!(carry_out(configure, &[]), Ok(vec![]));
}

#[test]
fn failed_microphone_reset_is_the_failure_of_the_operation() {
    let mut goxlr = ready();
    let (mut reset, configure) = goxlr.set_microphone_type(MicrophoneType::Dynamic, 0x10);
    reset.handle(Event::ControlWritten(Err(UsbError::Pipe)));
    let outcome = reset.finish().unwrap();
    assert_eq!(outcome, Err(RequestError::Transport(UsbError::Pipe)));
    assert_eq!(
        after_microphone_reset(outcome, configure),
        Err(RequestError::Transport(UsbError::Pipe))
    );
}

#[test]
fn each_failure_of_the_microphone_reset_is_handed_on_unchanged() {
    for error in [
        RequestError::Transport(UsbError::Timeout),
        RequestError::Transport(UsbError::NoDevice),
        RequestError::Desynchronized(FrameError::Truncated),
        RequestError::Desynchronized(FrameError::LengthMismatch),
        RequestError::Desynchronized(FrameError::SequenceMismatch),
        RequestError::ShortBody,
    ] {
        let configure = RoundTrip::new(0x0080_b000, 2, &[1, 0, 0, 0, 0, 0, 9, 0], 1000);
        assert_eq!(after_microphone_reset(Err(error), configure), Err(error));
    }
}

#[test]
fn good_microphone_reset_is_followed_by_the_configuration() {
    let mut goxlr = ready();
    let (reset, configure) = goxlr.set_microphone_type(MicrophoneType::Jack, 0x21);
    let frame = configure.frame().clone();
    let outcome = carry_out(reset, &[]);
    assert_eq!(outcome, Ok(vec![]));
    let next = after_microphone_reset(outcome, configure).unwrap();
    assert_eq!(next.frame(), &frame);
    assert_eq!(next.sequence(), 2);
    assert_eq!(next.command_id(), 0x0080_b000);
    assert_eq!(
        request_of(&next),
        Frame { command_id: 0x0080_b000, sequence: 2, body: vec![0x03, 0, 0, 0, 0, 0, 0x21, 0] }
    );
    assert_eq!(next.action(), Some(submit(frame)));
    assert_eq!(carry_out(next, &[]), Ok(vec![]));
}

#[test]
fn reply_body_of_the_reset_does_not_matter() {
    let configure = RoundTrip::new(0x0080_b000, 2, &[0; 8], 1000);
    let expected = RoundTrip::new(0x0080_b000, 2, &[0; 8], 1000);
    assert_eq!(after_microphone_reset(Ok(vec![1, 2, 3]), configure), Ok(expected));
}

#[test]
fn microphone_type_codes() {
    assert_eq!(MicrophoneType::Dynamic.id(), 0x01);
    assert_eq!(MicrophoneType::Condenser.id(), 0x02);
    assert_eq!(MicrophoneType::Jack.id(), 0x03);
}

#[test]
fn each_operation_asks_for_its_command_with_its_body() {
    let mut goxlr = ready();
    let trip = goxlr.set_volume(ChannelName::Chat, 0x7F);
    assert_eq!(request_of(&trip), Frame { command_id: 0x0080_6005, sequence: 1, body: vec![0x7F] });
    let trip = goxlr.set_channel_state(ChannelName::Headphones, ChannelState::Muted);
    assert_eq!(request_of(&trip), Frame { command_id: 0x0080_9008, sequence: 2, body: vec![0x01] });
    let trip = goxlr.set_channel_state(ChannelName::Headphones, ChannelState::Unmuted);
    assert_eq!(request_of(&trip), Frame { command_id: 0x0080_9008, sequence: 3, body: vec![0x00] });
    let trip = goxlr.set_fader_display_mode(FaderName::C, true, false);
    assert_eq!(request_of(&trip), Frame { command_id: 0x0081_4002, sequence: 4, body: vec![1, 0] });
    let trip = goxlr.set_fader(FaderName::D, ChannelName::LineOut);
    assert_eq!(
        request_of(&trip),
        Frame { command_id: 0x0080_5003, sequence: 5, body: vec![10, 0, 0, 0] }
    );
    let trip = goxlr.get_system_info();
    assert_eq!(request_of(&trip), Frame { command_id: 2, sequence: 6, body: vec![] });
    let trip = goxlr.supports_dcp_category(DCPCategory::new(0x0304));
    assert_eq!(request_of(&trip), Frame { command_id: 1, sequence: 7, body: vec![0x04, 0x03] });
    let trip = goxlr.get_button_states();
    assert_eq!(request_of(&trip), Frame { command_id: 0x0080_0000, sequence: 8, body: vec![] });
    assert_eq!(goxlr.command_count(), 8);
}

#[test]
fn opaque_buffers_are_sent_unchanged() {
    let mut goxlr = ready();
    let mut colours = [0u8; 328];
    let mut scribble = [0u8; 1024];
    let mut routing = [0u8; 22];
    for (i, byte) in colours.iter_mut().enumerate() {
        *byte = (i % 251) as u8;
    }
    for (i, byte) in scribble.iter_mut().enumerate() {
        *byte = (i % 241) as u8;
    }
    for (i, byte) in routing.iter_mut().enumerate() {
        *byte = (i * 11) as u8;
    }
    let trip = goxlr.set_button_colours(colours);
    assert_eq!(
        request_of(&trip),
        Frame { command_id: 0x0080_3000, sequence: 1, body: colours.to_vec() }
    );
    assert_eq!(trip.frame().len(), 16 + 328);
    let trip = goxlr.set_fader_scribble(FaderName::B, scribble);
    assert_eq!(
        request_of(&trip),
        Frame { command_id: 0x0080_2001, sequence: 2, body: scribble.to_vec() }
    );
    assert_eq!(trip.frame().len(), 1040);
    let trip = goxlr.set_routing(InputDevice::ChatLeft, routing);
    assert_eq!(
        request_of(&trip),
        Frame { command_id: 0x0080_400c, sequence: 3, body: routing.to_vec() }
    );
}

#[test]
fn button_states_are_sent_as_an_illumination_map() {
    let mut goxlr = ready();
    let mut states = [ButtonStates::Colour2; 24];
    states[Buttons::MicrophoneMute.position() as usize] = ButtonStates::Flashing;
    states[Buttons::Fader1Mute.position() as usize] = ButtonStates::DimmedColour2;
    let trip = goxlr.set_button_states(states);
    let mut body = vec![0u8; 24];
    body[23] = 0x03;
    body[4] = 0x04;
    assert_eq!(request_of(&trip), Frame { command_id: 0x0080_8000, sequence: 1, body });
}

#[test]
fn button_query_end_to_end() {
    let mut goxlr = ready();
    let trip = goxlr.get_button_states();
    let body = carry_out(trip, &[0x01, 0x00, 0x40, 0x00, 0, 0, 0, 0, 9, 8, 7, 6]).unwrap();
    let (pressed, mixers) = decode_button_states(&body).unwrap();
    assert_eq!(pressed.to_vec(), vec![Buttons::EffectSelect1, Buttons::Bleep]);
    assert_eq!(mixers, [9, 8, 7, 6]);
}

#[test]
fn button_query_with_an_eight_byte_reply() {
    let mut goxlr = ready();
    let trip = goxlr.get_button_states();
    let body = carry_out(trip, &[0, 0, 0, 0, 1, 2, 3, 4]).unwrap();
    assert_eq!(decode_button_states(&body), Ok((ButtonSet::empty(), [1, 2, 3, 4])));
}

#[test]
fn category_query_end_to_end() {
    let mut goxlr = ready();
    let trip = goxlr.supports_dcp_category(DCPCategory::new(5));
    let body = carry_out(trip, &[1, 0]).unwrap();
    assert_eq!(decode_dcp_support(&body), Ok(true));
    let trip = goxlr.supports_dcp_category(DCPCategory::new(6));
    let body = carry_out(trip, &[]).unwrap();
    assert_eq!(decode_dcp_support(&body), Err(RequestError::ShortBody));
}

#[test]
fn request_data_frames_any_command_and_body() {
    let mut goxlr = ready();
    let trip = goxlr.request_data(Command::SystemInfo(SystemInfoCommand::FirmwareVersion), &[5, 6]);
    assert_eq!(trip.command_id(), 2);
    assert_eq!(trip.sequence(), 1);
    assert_eq!(trip.frame(), &vec![2, 0, 0, 0, 2, 0, 1, 0, 0, 0, 0, 0, 0, 0, 0, 0, 5, 6]);
}

#[test]
fn transfers_of_the_connection_carry_its_time_limit() {
    let goxlr = ready();
    assert_eq!(
        goxlr.read_control(RequestType::Vendor, 3, 0, 0, 1040),
        ControlRead {
            request_type: 0xC1,
            request: 3,
            value: 0,
            index: 0,
            length: 1040,
            timeout_millis: 1000
        }
    );
    assert_eq!(
        goxlr.write_control(RequestType::Vendor, 2, 7, 8, &[1, 2]),
        ControlWrite {
            request_type: 0x41,
            request: 2,
            value: 7,
            index: 8,
            data: vec![1, 2],
            timeout_millis: 1000
        }
    );
    assert_eq!(
        goxlr.await_interrupt(2000),
        InterruptRead { endpoint: 0x81, length: 6, timeout_millis: 2000 }
    );
}

#[test]
fn new_round_trip_frames_its_request() {
    let trip = RoundTrip::new(0x0080_0000, 77, &[1], 500);
    assert_eq!(trip.command_id(), 0x0080_0000);
    assert_eq!(trip.sequence(), 77);
    assert_eq!(trip.frame(), &encode_request(0x0080_0000, 77, &[1]));
    assert_eq!(
        trip.action(),
        Some(Action::WriteControl(ControlWrite {
            request_type: 0x41,
            request: 2,
            value: 0,
            index: 0,
            data: encode_request(0x0080_0000, 77, &[1]),
            timeout_millis: 500
        }))
    );
}
