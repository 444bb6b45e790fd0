//! The byte layouts of the command bodies, and of the replies that carry
//! data.

use crate::buttonstate::{buttons_of_mask, ButtonSet, ButtonStates, Buttons, BUTTON_COUNT};
use crate::channelstate::ChannelState;
use crate::dcp::DCPCategory;
use crate::endian::{le_u16, le_u32, read_u16, read_u32, u16_le_bytes, write_u16};
use crate::error::RequestError;
use crate::microphone::MicrophoneType;
use crate::types::ChannelName;
use vstd::prelude::*;
use vstd::slice::slice_subrange;

verus! {

/// The length of the body that assigns a channel to a fader.
pub const FADER_BODY_LENGTH: usize = 4;

/// The length of an illumination map: one byte for each button.
pub const BUTTON_STATES_LENGTH: usize = 24;

/// The length of a colour map.
pub const COLOUR_MAP_LENGTH: usize = 328;

/// The length of a row of the routing matrix.
pub const ROUTING_LENGTH: usize = 22;

/// The length of a microphone configuration.
pub const MICROPHONE_BODY_LENGTH: usize = 8;

/// The length of a scribble bitmap.
pub const SCRIBBLE_LENGTH: usize = 1024;

/// The length of the reply to a query for the button states: the press mask
/// in four bytes, followed by the four mixer levels.
pub const BUTTON_REPLY_LENGTH: usize = 8;

/// The length from which a reply to a query for the button states is of the
/// long form, in which four more bytes stand between the press mask and the
/// mixer levels.
pub const BUTTON_REPLY_LONG_LENGTH: usize = 12;

/// The byte of a flag: one when it is set, zero when not.
pub open spec fn spec_flag_byte(flag: bool) -> u8 {
    if flag {
        0x01
    } else {
        0x00
    }
}

/// The byte of a flag: one when it is set, zero when not.
pub fn flag_byte(flag: bool) -> (byte: u8)
    ensures
        byte == spec_flag_byte(flag),
{
    if flag {
        0x01
    } else {
        0x00
    }
}

/// The body that assigns a channel to a fader: the channel's number, then
/// three bytes of zero.
pub open spec fn spec_fader_body(channel: ChannelName) -> Seq<u8> {
    seq![channel.spec_id(), 0x00, 0x00, 0x00]
}

/// The body that assigns `channel` to a fader.
pub fn fader_body(channel: ChannelName) -> (body: [u8; 4])
    ensures
        body@ == spec_fader_body(channel),
{
    let body: [u8; 4] = [channel.id(), 0x00, 0x00, 0x00];
    assert(body@ =~= spec_fader_body(channel));
    body
}

/// The body that sets a channel's volume: the volume itself.
pub fn volume_body(volume: u8) -> (body: [u8; 1])
    ensures
        body@ == seq![volume],
{
    let body: [u8; 1] = [volume];
    assert(body@ =~= seq![volume]);
    body
}

/// The body that mutes or unmutes a channel: the state's flag byte.
pub fn channel_state_body(state: ChannelState) -> (body: [u8; 1])
    ensures
        body@ == seq![state.spec_id()],
{
    let body: [u8; 1] = [state.id()];
    assert(body@ =~= seq![state.spec_id()]);
    body
}

/// An illumination map: at each button's position the byte of its state.
pub open spec fn spec_button_states_body(data: Seq<ButtonStates>) -> Seq<u8> {
    Seq::new(data.len(), |i: int| data[i].spec_id())
}

/// The illumination map for the states in `data`, which holds at each
/// button's position the state of that button.
pub fn button_states_body(data: &[ButtonStates; 24]) -> (body: [u8; 24])
    ensures
        body@ == spec_button_states_body(data@),
{
    let mut body: [u8; 24] = [0x00; 24];
    let mut i: usize = 0;
    while i < 24
        invariant
            i <= 24,
            forall|k: int| 0 <= k < i ==> body@[k] == data@[k].spec_id(),
        decreases 24 - i,
    {
        body[i] = data[i].id();
        i = i + 1;
    }
    assert(body@ =~= spec_button_states_body(data@));
    body
}

/// A microphone configuration: the type code in byte 0, the gain in byte 6,
/// zero elsewhere.
pub open spec fn spec_microphone_body(microphone_type: MicrophoneType, gain: u8) -> Seq<u8> {
    seq![microphone_type.spec_id(), 0x00, 0x00, 0x00, 0x00, 0x00, gain, 0x00]
}

/// The body that resets the microphone configuration: eight bytes of zero.
pub open spec fn spec_microphone_reset_body() -> Seq<u8> {
    Seq::new(8, |i: int| 0x00u8)
}

/// The configuration body for a microphone of the given type and gain.
pub fn microphone_body(microphone_type: MicrophoneType, gain: u8) -> (body: [u8; 8])
    ensures
        body@ == spec_microphone_body(microphone_type, gain),
{
    let body: [u8; 8] = [microphone_type.id(), 0x00, 0x00, 0x00, 0x00, 0x00, gain, 0x00];
    assert(body@ =~= spec_microphone_body(microphone_type, gain));
    body
}

/// The body that resets the microphone configuration.
pub fn microphone_reset_body() -> (body: [u8; 8])
    ensures
        body@ == spec_microphone_reset_body(),
{
    let body: [u8; 8] = [0x00; 8];
    assert(body@ =~= spec_microphone_reset_body());
    body
}

/// The body that sets a fader's display mode: the gradient flag, then the
/// meter flag.
pub open spec fn spec_display_mode_body(gradient: bool, meter: bool) -> Seq<u8> {
    seq![spec_flag_byte(gradient), spec_flag_byte(meter)]
}

/// The body that sets a fader's display mode.
pub fn display_mode_body(gradient: bool, meter: bool) -> (body: [u8; 2])
    ensures
        body@ == spec_display_mode_body(gradient, meter),
{
    let body: [u8; 2] = [flag_byte(gradient), flag_byte(meter)];
    assert(body@ =~= spec_display_mode_body(gradient, meter));
    body
}

/// The body that asks whether a category of the control protocol is
/// supported: the category's identifier, little-endian.
pub fn dcp_category_body(category: DCPCategory) -> (body: [u8; 2])
    ensures
        body@ == u16_le_bytes(category.spec_id()),
{
    write_u16(category.id())
}

/// Where the four mixer levels begin in a reply of `length` bytes to a
/// query for the button states: right behind the press mask, and four bytes
/// further on in a reply of the long form.
pub open spec fn spec_mixer_offset(length: nat) -> int {
    if length < BUTTON_REPLY_LONG_LENGTH {
        4
    } else {
        8
    }
}

/// What the reply to a query for the button states says: the buttons whose
/// bits are set in the little-endian mask of the first four bytes, and the
/// four mixer levels that follow the mask. In a reply of twelve bytes or
/// more the levels stand in bytes 8 to 11.
pub open spec fn spec_decode_button_states(body: Seq<u8>) -> Result<
    (Set<Buttons>, Seq<u8>),
    RequestError,
> {
    if body.len() < BUTTON_REPLY_LENGTH {
        Err(RequestError::ShortBody)
    } else {
        Ok(
            (
                buttons_of_mask(le_u32(body) as u32),
                body.subrange(spec_mixer_offset(body.len()), spec_mixer_offset(body.len()) + 4),
            ),
        )
    }
}

/// Decodes the reply to a query for the button states into the set of
/// pressed buttons and the four mixer levels. A reply of fewer than eight
/// bytes is refused.
pub fn decode_button_states(body: &[u8]) -> (decoded: Result<(ButtonSet, [u8; 4]), RequestError>)
    ensures
        match decoded {
            Ok((pressed, mixers)) => spec_decode_button_states(body@) == Ok::<
                (Set<Buttons>, Seq<u8>),
                RequestError,
            >((pressed@, mixers@)),
            Err(error) => spec_decode_button_states(body@) == Err::<
                (Set<Buttons>, Seq<u8>),
                RequestError,
            >(error),
        },
{
    if body.len() < BUTTON_REPLY_LENGTH {
        return Err(RequestError::ShortBody);
    }
    let mask: u32 = read_u32(slice_subrange(body, 0, 4));
    let pressed = ButtonSet::from_bits(mask);
    let offset: usize = if body.len() < BUTTON_REPLY_LONG_LENGTH {
        4
    } else {
        8
    };
    let mixers: [u8; 4] = [body[offset], body[offset + 1], body[offset + 2], body[offset + 3]];
    assert(mixers@ =~= body@.subrange(offset as int, offset + 4));
    Ok((pressed, mixers))
}

/// A reply of eight bytes to a query for the button states is the press
/// mask followed by the four mixer levels.
pub proof fn lemma_decode_short_button_reply(body: Seq<u8>)
    requires
        body.len() == BUTTON_REPLY_LENGTH,
    ensures
        spec_decode_button_states(body) == Ok::<(Set<Buttons>, Seq<u8>), RequestError>(
            (buttons_of_mask(le_u32(body) as u32), body.subrange(4, 8)),
        ),
{
}

/// What the reply to a query for a category says: supported when its first
/// two bytes hold the number one, little-endian.
pub open spec fn spec_decode_dcp_support(body: Seq<u8>) -> Result<bool, RequestError> {
    if body.len() < 2 {
        Err(RequestError::ShortBody)
    } else {
        Ok(le_u16(body) == 1)
    }
}

/// Decodes the reply to a query for a category of the control protocol. A
/// reply of fewer than two bytes is refused.
pub fn decode_dcp_support(body: &[u8]) -> (decoded: Result<bool, RequestError>)
    ensures
        decoded == spec_decode_dcp_support(body@),
{
    if body.len() < 2 {
        return Err(RequestError::ShortBody);
    }
    Ok(read_u16(body) == 1)
}

/// In an illumination map, the byte at a button's position is the byte of
/// that button's state, and the map is as long as there are buttons.
pub proof fn lemma_button_states_body(data: Seq<ButtonStates>, button: Buttons)
    requires
        data.len() == BUTTON_COUNT,
    ensures
        spec_button_states_body(data).len() == BUTTON_STATES_LENGTH,
        spec_button_states_body(data)[button.spec_position() as int]
            == data[button.spec_position() as int].spec_id(),
{
}

} // verus!
