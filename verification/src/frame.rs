//! The frame codec: a sixteen-byte header, then the body.
//!
//! The header holds the command identifier (four bytes), the length of the
//! body (two bytes) and the sequence number (two bytes), each little-endian,
//! and eight reserved bytes, which are zero in a request.

use crate::endian::{le_u16, le_u32, read_u16, read_u32, u16_le_bytes, u32_le_bytes, write_u16, write_u32};
use vstd::prelude::*;
use vstd::slice::slice_subrange;

verus! {

/// The length of a frame's header.
pub const HEADER_LENGTH: usize = 16;

/// Why a buffer is no frame, or not the reply that was waited for.
#[derive(Copy, Clone, Debug, PartialEq, Eq, Structural)]
pub enum FrameError {
    /// The buffer is shorter than a header.
    Truncated,
    /// The header declares another body length than the buffer holds.
    LengthMismatch,
    /// The frame carries another sequence number than the request did.
    SequenceMismatch,
}

/// A decoded frame.
#[derive(Clone, Debug, PartialEq, Eq)]
pub struct Frame {
    pub command_id: u32,
    pub sequence: u16,
    pub body: Vec<u8>,
}

/// A frame as a value: what `Frame` holds, with the body as a sequence.
pub struct FrameView {
    pub command_id: u32,
    pub sequence: u16,
    pub body: Seq<u8>,
}

impl View for Frame {
    type V = FrameView;

    open spec fn view(&self) -> FrameView {
        FrameView { command_id: self.command_id, sequence: self.sequence, body: self.body@ }
    }
}

/// The sixteen bytes of a request header.
pub open spec fn spec_header(command_id: u32, length: u16, sequence: u16) -> Seq<u8> {
    u32_le_bytes(command_id) + u16_le_bytes(length) + u16_le_bytes(sequence) + Seq::new(
        8,
        |i: int| 0u8,
    )
}

/// The length field of a frame with a body of `length` bytes: the length
/// itself up to 65535, its low sixteen bits beyond.
pub open spec fn spec_length_field(length: nat) -> u16 {
    (length % 0x1_0000) as u16
}

/// The bytes of a request frame: the header, then the body unchanged.
pub open spec fn spec_encode(command_id: u32, sequence: u16, body: Seq<u8>) -> Seq<u8> {
    spec_header(command_id, spec_length_field(body.len()), sequence) + body
}

/// What a buffer decodes to: a frame when it holds a header and exactly the
/// body that the header declares.
pub open spec fn spec_decode(buffer: Seq<u8>) -> Result<FrameView, FrameError> {
    if buffer.len() < HEADER_LENGTH {
        Err(FrameError::Truncated)
    } else if le_u16(buffer.subrange(4, 6)) != buffer.len() - HEADER_LENGTH {
        Err(FrameError::LengthMismatch)
    } else {
        Ok(
            FrameView {
                command_id: le_u32(buffer.subrange(0, 4)) as u32,
                sequence: le_u16(buffer.subrange(6, 8)) as u16,
                body: buffer.subrange(HEADER_LENGTH as int, buffer.len() as int),
            },
        )
    }
}

/// The body of the reply to the request numbered `sequence`, or why the
/// buffer is not that reply.
pub open spec fn spec_decode_reply(buffer: Seq<u8>, sequence: u16) -> Result<Seq<u8>, FrameError> {
    match spec_decode(buffer) {
        Err(error) => Err(error),
        Ok(frame) => if frame.sequence == sequence {
            Ok(frame.body)
        } else {
            Err(FrameError::SequenceMismatch)
        },
    }
}

/// Builds the request frame for a command identifier, a sequence number and
/// a body.
pub fn encode_request(command_id: u32, sequence: u16, body: &[u8]) -> (frame: Vec<u8>)
    ensures
        frame@ == spec_encode(command_id, sequence, body@),
{
    let length: u16 = (body.len() % 0x1_0000) as u16;
    let id_bytes = write_u32(command_id);
    let length_bytes = write_u16(length);
    let sequence_bytes = write_u16(sequence);
    let reserved: [u8; 8] = [0; 8];
    let mut frame: Vec<u8> = Vec::new();
    frame.extend_from_slice(id_bytes.as_slice());
    frame.extend_from_slice(length_bytes.as_slice());
    frame.extend_from_slice(sequence_bytes.as_slice());
    frame.extend_from_slice(reserved.as_slice());
    frame.extend_from_slice(body);
    assert(frame@ =~= spec_encode(command_id, sequence, body@));
    frame
}

/// Splits a buffer into header and body, and checks the body's length
/// against the header.
pub fn decode_frame(buffer: &[u8]) -> (decoded: Result<Frame, FrameError>)
    ensures
        match decoded {
            Ok(frame) => spec_decode(buffer@) == Ok::<FrameView, FrameError>(frame@),
            Err(error) => spec_decode(buffer@) == Err::<FrameView, FrameError>(error),
        },
{
    if buffer.len() < HEADER_LENGTH {
        return Err(FrameError::Truncated);
    }
    let declared: u16 = read_u16(slice_subrange(buffer, 4, 6));
    if declared as usize != buffer.len() - HEADER_LENGTH {
        return Err(FrameError::LengthMismatch);
    }
    let command_id: u32 = read_u32(slice_subrange(buffer, 0, 4));
    let sequence: u16 = read_u16(slice_subrange(buffer, 6, 8));
    let mut body: Vec<u8> = Vec::new();
    body.extend_from_slice(slice_subrange(buffer, HEADER_LENGTH, buffer.len()));
    assert(body@ =~= buffer@.subrange(HEADER_LENGTH as int, buffer@.len() as int));
    Ok(Frame { command_id, sequence, body })
}

/// Decodes the reply to the request numbered `sequence` and hands out its
/// body. A reply that is cut short, that declares another length than it
/// has, or that echoes another sequence number is refused.
pub fn decode_reply(buffer: &[u8], sequence: u16) -> (decoded: Result<Vec<u8>, FrameError>)
    ensures
        match decoded {
            Ok(body) => spec_decode_reply(buffer@, sequence) == Ok::<Seq<u8>, FrameError>(body@),
            Err(error) => spec_decode_reply(buffer@, sequence) == Err::<Seq<u8>, FrameError>(error),
        },
{
    match decode_frame(buffer) {
        Err(error) => Err(error),
        Ok(frame) => {
            if frame.sequence == sequence {
                Ok(frame.body)
            } else {
                Err(FrameError::SequenceMismatch)
            }
        },
    }
}

/// A request frame is its header and its body: sixteen bytes longer than the
/// body, which follows the header unchanged.
pub proof fn lemma_encode_layout(command_id: u32, sequence: u16, body: Seq<u8>)
    ensures
        spec_encode(command_id, sequence, body).len() == HEADER_LENGTH + body.len(),
        spec_encode(command_id, sequence, body).subrange(0, 4) == u32_le_bytes(command_id),
        spec_encode(command_id, sequence, body).subrange(4, 6) == u16_le_bytes(
            spec_length_field(body.len()),
        ),
        spec_encode(command_id, sequence, body).subrange(6, 8) == u16_le_bytes(sequence),
        forall|i: int| 8 <= i < 16 ==> spec_encode(command_id, sequence, body)[i] == 0,
        spec_encode(command_id, sequence, body).subrange(
            HEADER_LENGTH as int,
            HEADER_LENGTH + body.len(),
        ) == body,
{
    let frame = spec_encode(command_id, sequence, body);
    assert(frame.subrange(0, 4) =~= u32_le_bytes(command_id));
    assert(frame.subrange(4, 6) =~= u16_le_bytes(spec_length_field(body.len())));
    assert(frame.subrange(6, 8) =~= u16_le_bytes(sequence));
    assert(frame.subrange(HEADER_LENGTH as int, HEADER_LENGTH + body.len()) =~= body);
}

/// Decoding an encoded frame gives back the command identifier, the sequence
/// number and the body, for every body of at most 65535 bytes.
pub proof fn lemma_decode_encode(command_id: u32, sequence: u16, body: Seq<u8>)
    requires
        body.len() <= 0xFFFF,
    ensures
        spec_decode(spec_encode(command_id, sequence, body)) == Ok::<FrameView, FrameError>(
            FrameView { command_id, sequence, body },
        ),
        spec_decode_reply(spec_encode(command_id, sequence, body), sequence) == Ok::<
            Seq<u8>,
            FrameError,
        >(body),
{
    lemma_encode_layout(command_id, sequence, body);
}

/// A reply is accepted only with the sequence number of its request: the
/// frame of another number is refused.
pub proof fn lemma_decode_reply_other_sequence(
    command_id: u32,
    sequence: u16,
    expected: u16,
    body: Seq<u8>,
)
    requires
        body.len() <= 0xFFFF,
        sequence != expected,
    ensures
        spec_decode_reply(spec_encode(command_id, sequence, body), expected) == Err::<
            Seq<u8>,
            FrameError,
        >(FrameError::SequenceMismatch),
{
    lemma_decode_encode(command_id, sequence, body);
}

} // verus!
