use vstd::prelude::*;

verus! {

/// Errors surfaced by the device operations and the capture loop.
#[derive(Clone, Copy, Debug, PartialEq, Eq, Structural)]
pub enum DeviceError {
    /// An `offset + length` range exceeds the buffer's fixed capacity.
    OutOfRange,
    /// A write payload is shorter than the fixed capture-command layout.
    MalformedCommand,
    /// The external video source could not be opened; fatal to a capture loop.
    SourceUnavailable,
    /// The outbound relay connection could not be made; fatal to a capture
    /// loop, which releases the source and ends rather than capture into a
    /// dead transport.
    TransportUnavailable,
    /// A control command sent to the external source failed; non-fatal.
    ControlCommandFailed,
    /// A capture loop is already active on the device; capture sequences are
    /// serialized per device, at most one at a time.
    DeviceBusy,
}

} // verus!
