use vstd::prelude::*;

use crate::buffer::SharedBuffer;
use crate::command::{
    spec_decode_capture_command, decode_capture_command, CaptureCommand, CAPTURE_COMMAND_LEN,
};
use crate::errors::DeviceError;

verus! {

/// Default capacity of the camera device's output buffer: 17 pixels of 3
/// bytes each.
pub const CAMERA_OUTPUT_CAPACITY: usize = 51;

/// The camera-output device: a fixed-capacity output buffer read by callers,
/// and a write path that decodes a capture command and hands it back for a
/// capture loop to be spawned on.
pub struct CameraDevice {
    output: SharedBuffer,
}

impl View for CameraDevice {
    type V = Seq<u8>;

    closed spec fn view(&self) -> Seq<u8> {
        self.output@
    }
}

impl CameraDevice {
    /// A camera device with a zeroed output buffer of `capacity` bytes.
    pub fn new(capacity: usize) -> (d: CameraDevice)
        ensures
            d@ == Seq::new(capacity as nat, |i: int| 0u8),
    {
        CameraDevice { output: SharedBuffer::new(capacity) }
    }

    /// The fixed capacity of the output buffer.
    pub fn capacity(&self) -> (n: usize)
        ensures
            n == self@.len(),
    {
        self.output.capacity()
    }

    /// Copy `length` bytes starting at `offset` out of the output buffer.
    ///
    /// The same uniform rule as every device read: a zero-length request
    /// succeeds with no bytes regardless of `offset`; any other request is
    /// served exactly when `[offset, offset + length)` lies within the
    /// capacity, and rejected with `OutOfRange` otherwise.
    pub fn read(&self, offset: usize, length: usize) -> (r: Result<Vec<u8>, DeviceError>)
        ensures
            length == 0 ==> (r matches Ok(bytes) && bytes@ == Seq::<u8>::empty()),
            length > 0 && offset + length <= self@.len() ==> (r matches Ok(bytes) && bytes@
                == self@.subrange(offset as int, offset + length)),
            length > 0 && offset + length > self@.len() ==> r == Err::<Vec<u8>, DeviceError>(
                DeviceError::OutOfRange,
            ),
    {
        self.output.read(offset, length)
    }

    /// Accept a write() payload: decode it into a capture command.
    ///
    /// A payload of fewer than `CAPTURE_COMMAND_LEN` bytes is rejected with
    /// `MalformedCommand` and no capture loop may be spawned. On success the
    /// decoded command comes back together with the byte count the caller is
    /// answered with — zero, since the payload triggers a capture sequence
    /// rather than filling a buffer.
    pub fn write(&self, payload: &Vec<u8>) -> (r: Result<(CaptureCommand, usize), DeviceError>)
        ensures
            payload@.len() < CAPTURE_COMMAND_LEN ==> r == Err::<
                (CaptureCommand, usize),
                DeviceError,
            >(DeviceError::MalformedCommand),
            payload@.len() >= CAPTURE_COMMAND_LEN ==> r == Ok::<
                (CaptureCommand, usize),
                DeviceError,
            >((spec_decode_capture_command(payload@), 0)),
    {
        match decode_capture_command(payload) {
            Ok(command) => Ok((command, 0)),
            Err(e) => Err(e),
        }
    }

    /// Store a captured frame in the output buffer, from its beginning, for
    /// later reads. An empty frame changes nothing; a frame longer than the
    /// output buffer is rejected with `OutOfRange` and the buffer is left
    /// unchanged.
    pub fn store_output(&mut self, frame: &Vec<u8>) -> (r: Result<usize, DeviceError>)
        ensures
            final(self)@.len() == old(self)@.len(),
            frame@.len() == 0 ==> (r == Ok::<usize, DeviceError>(0) && final(self)@ == old(
                self,
            )@),
            0 < frame@.len() <= old(self)@.len() ==> (r matches Ok(n) && n == frame@.len()
                && final(self)@ == crate::buffer::spec_write(old(self)@, 0, frame@)),
            frame@.len() > old(self)@.len() ==> (r == Err::<usize, DeviceError>(
                DeviceError::OutOfRange,
            ) && final(self)@ == old(self)@),
    {
        self.output.write(0, frame)
    }

}

/// Bytes in one page of the machine's direct map.
pub const PAGE_SIZE: u64 = 4096;

/// Kernel virtual address of the page frame numbered `pfn`, given the base
/// address of the machine's direct map.
pub fn pfn_to_kaddr(pfn: u64, page_offset_base: u64) -> (addr: u64)
    requires
        pfn * PAGE_SIZE + page_offset_base <= u64::MAX,
    ensures
        addr == pfn * PAGE_SIZE + page_offset_base,
{
    pfn * PAGE_SIZE + page_offset_base
}

/// Seconds and microseconds of a frame timestamp, as the external video
/// source lays them out.
#[allow(non_camel_case_types)]
#[derive(Clone, Copy, Debug, PartialEq, Eq, Structural)]
pub struct timeval {
    pub tv_sec: u64,
    pub tv_usec: u64,
}

/// Timecode slot of a frame descriptor, as the external video source lays it
/// out.
#[allow(non_camel_case_types)]
#[derive(Clone, Copy, Debug, PartialEq, Eq)]
pub struct v4l2_timecode {
    pub my_type: u32,
    pub flags: u32,
    pub frames: u8,
    pub seconds: u8,
    pub minutes: u8,
    pub hours: u8,
    pub userbits: [u8; 4],
}

/// The frame descriptor the external video source's queue/dequeue commands
/// speak of. The field order and widths mirror the source's own numbering
/// scheme and must stay bit-exact for compatibility.
#[allow(non_camel_case_types)]
#[derive(Clone, Copy, Debug, PartialEq, Eq)]
pub struct v4l2_buffer {
    pub index: u32,
    pub my_type: u32,
    pub bytesused: u32,
    pub flags: u32,
    pub field: u32,
    pub align: u32,
    pub timestamp: timeval,
    pub timecode: v4l2_timecode,
    pub sequence: u32,
    pub memory: u32,
    pub offset: u32,
    pub offset2: u32,
    pub length: u32,
    pub reserved1: u32,
    pub reserved2: [u32; 2],
}

} // verus!
