use vstd::prelude::*;

use vstd::bytes::{spec_u64_from_le_bytes, u64_from_le_bytes};
use vstd::slice::slice_subrange;

use crate::errors::DeviceError;

verus! {

/// Number of payload bytes the fixed capture-command layout occupies: four
/// 64-bit fields of eight bytes each.
pub const CAPTURE_COMMAND_LEN: usize = 32;

/// A capture command decoded from a write() payload: four little-endian
/// 64-bit fields in fixed order.
#[derive(Clone, Copy, Debug, PartialEq, Eq, Structural)]
pub struct CaptureCommand {
    /// Frame number the capture starts at; passed through unmodified.
    pub start_frame_number: u64,
    /// Number of frames the caller asks for; passed through unmodified.
    pub frame_count: u64,
    /// Control argument handed to the streaming start/stop commands.
    pub command_kind: u64,
    /// Opaque frame-buffer descriptor handed to the queue/dequeue commands.
    pub buffer_descriptor: u64,
}

/// The command encoded in the first `CAPTURE_COMMAND_LEN` bytes of
/// `payload`: each field is read little-endian from its eight-byte slot, in
/// the fixed order start frame number, frame count, command kind, buffer
/// descriptor.
pub open spec fn spec_decode_capture_command(payload: Seq<u8>) -> CaptureCommand
    recommends
        payload.len() >= CAPTURE_COMMAND_LEN,
{
    CaptureCommand {
        start_frame_number: spec_u64_from_le_bytes(payload.subrange(0, 8)),
        frame_count: spec_u64_from_le_bytes(payload.subrange(8, 16)),
        command_kind: spec_u64_from_le_bytes(payload.subrange(16, 24)),
        buffer_descriptor: spec_u64_from_le_bytes(payload.subrange(24, 32)),
    }
}

/// Decode a write() payload into a capture command.
///
/// A payload of fewer than `CAPTURE_COMMAND_LEN` bytes is rejected with
/// `MalformedCommand`, never truncated; any longer payload decodes
/// deterministically, with bytes past the fixed layout ignored.
pub fn decode_capture_command(payload: &Vec<u8>) -> (r: Result<CaptureCommand, DeviceError>)
    ensures
        payload@.len() < CAPTURE_COMMAND_LEN ==> r == Err::<CaptureCommand, DeviceError>(
            DeviceError::MalformedCommand,
        ),
        payload@.len() >= CAPTURE_COMMAND_LEN ==> r == Ok::<CaptureCommand, DeviceError>(
            spec_decode_capture_command(payload@),
        ),
{
    if payload.len() < CAPTURE_COMMAND_LEN {
        return Err(DeviceError::MalformedCommand);
    }
    let bytes = payload.as_slice();
    let start_frame_number = u64_from_le_bytes(slice_subrange(bytes, 0, 8));
    let frame_count = u64_from_le_bytes(slice_subrange(bytes, 8, 16));
    let command_kind = u64_from_le_bytes(slice_subrange(bytes, 16, 24));
    let buffer_descriptor = u64_from_le_bytes(slice_subrange(bytes, 24, 32));
    Ok(CaptureCommand { start_frame_number, frame_count, command_kind, buffer_descriptor })
}

} // verus!
