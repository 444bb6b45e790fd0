//! What can go wrong between the library, the bus and the device.

use crate::frame::FrameError;
use vstd::prelude::*;

verus! {

/// A failure reported by the USB transport.
#[derive(Copy, Clone, Debug, PartialEq, Eq, Structural)]
pub enum UsbError {
    /// Input/output error.
    Io,
    /// Invalid parameter.
    InvalidParam,
    /// Access denied.
    Access,
    /// No such device; it may have been unplugged.
    NoDevice,
    /// Entity not found.
    NotFound,
    /// Resource busy.
    Busy,
    /// The operation timed out.
    Timeout,
    /// Overflow.
    Overflow,
    /// Pipe error.
    Pipe,
    /// A system call was interrupted.
    Interrupted,
    /// Insufficient memory.
    NoMem,
    /// The operation is not supported on this platform.
    NotSupported,
    /// The device returned a malformed descriptor.
    BadDescriptor,
    /// Any other error.
    Other,
}

/// Why no connection to a device came about.
#[derive(Copy, Clone, Debug, PartialEq, Eq, Structural)]
pub enum ConnectError {
    /// No attached device has the vendor and product identifiers of a GoXLR.
    DeviceNotFound,
    /// The transport failed.
    UsbError(UsbError),
    /// A device with the right identifiers gave no usable list of languages.
    DeviceNotGoXLR,
}

/// Why a request brought no reply body.
#[derive(Copy, Clone, Debug, PartialEq, Eq, Structural)]
pub enum RequestError {
    /// A control transfer failed.
    Transport(UsbError),
    /// The reply does not belong to the request: the connection is out of
    /// step with the device.
    Desynchronized(FrameError),
    /// The reply's body is too short for what the command returns.
    ShortBody,
}

} // verus!
