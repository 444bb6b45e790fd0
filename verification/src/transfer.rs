//! What the library asks of the USB transport, and what the transport
//! answers.
//!
//! The library performs no transfer itself. Its state machines hand out an
//! [`Action`], the driver performs it and hands back the [`Event`] that tells
//! how it went.

use crate::error::UsbError;
use vstd::prelude::*;

verus! {

/// The vendor identifier of every GoXLR.
pub const VID_GOXLR: u16 = 0x1220;

/// The product identifier of the small model.
pub const PID_GOXLR_MINI: u16 = 0x8fe4;

/// The product identifier of the full-size model.
pub const PID_GOXLR_FULL: u16 = 0x8fe0;

/// The configuration that is made active during bring-up.
pub const CONFIGURATION: u8 = 1;

/// The interface that carries the control protocol.
pub const INTERFACE: u8 = 0;

/// The endpoint on which the device signals that a reply is ready.
pub const INTERRUPT_ENDPOINT: u8 = 0x81;

/// The size of the buffer for the readiness signal.
pub const INTERRUPT_LENGTH: usize = 6;

/// The vendor request of the first probe of bring-up.
pub const REQUEST_PROBE: u8 = 0;

/// The vendor request of the handshake write of bring-up.
pub const REQUEST_HANDSHAKE: u8 = 1;

/// The vendor request that submits a command.
pub const REQUEST_SUBMIT: u8 = 2;

/// The vendor request that fetches a reply, also used as the last probe of
/// bring-up.
pub const REQUEST_FETCH: u8 = 3;

/// The number of bytes asked for by the first probe of bring-up.
pub const PROBE_LENGTH: usize = 24;

/// The number of bytes asked for when a reply is fetched.
pub const REPLY_LENGTH: usize = 1040;

/// The time allowed for a control transfer, in milliseconds.
pub const CONTROL_TIMEOUT_MILLIS: u64 = 1000;

/// The time allowed for reading a string descriptor, in milliseconds.
pub const DESCRIPTOR_TIMEOUT_MILLIS: u64 = 100;

/// The pause between submitting a command and waiting for the readiness
/// signal, in milliseconds.
pub const SETTLE_MILLIS: u64 = 10;

/// The longest wait for the readiness signal, in milliseconds.
pub const READY_TIMEOUT_MILLIS: u64 = 2000;

/// The direction of a control transfer, seen from the host.
#[derive(Copy, Clone, Debug, PartialEq, Eq, Structural)]
pub enum Direction {
    In,
    Out,
}

/// The type of a control request.
#[derive(Copy, Clone, Debug, PartialEq, Eq, Structural)]
pub enum RequestType {
    Standard,
    Class,
    Vendor,
    Reserved,
}

/// The recipient of a control request.
#[derive(Copy, Clone, Debug, PartialEq, Eq, Structural)]
pub enum Recipient {
    Device,
    Interface,
    Endpoint,
    Other,
}

/// The request-type byte of a control transfer: the direction in bit 7, the
/// type in bits 5 and 6, the recipient in the low bits.
pub open spec fn spec_request_type(
    direction: Direction,
    kind: RequestType,
    recipient: Recipient,
) -> u8 {
    let direction_bits: int = match direction {
        Direction::Out => 0x00,
        Direction::In => 0x80,
    };
    let type_bits: int = match kind {
        RequestType::Standard => 0x00,
        RequestType::Class => 0x20,
        RequestType::Vendor => 0x40,
        RequestType::Reserved => 0x60,
    };
    let recipient_bits: int = match recipient {
        Recipient::Device => 0x00,
        Recipient::Interface => 0x01,
        Recipient::Endpoint => 0x02,
        Recipient::Other => 0x03,
    };
    (direction_bits + type_bits + recipient_bits) as u8
}

/// Calls `rusb::request_type` with the same direction, type and recipient.
/// Trusted: the byte it builds is the direction's bit (0x80 for in), the
/// type's number in bits 5 and 6, and the recipient's number in the low
/// bits; the three do not overlap, so that joining them adds them up.
#[verifier::external_body]
pub(crate) fn request_type(direction: Direction, kind: RequestType, recipient: Recipient) -> (byte:
    u8)
    ensures
        byte == spec_request_type(direction, kind, recipient),
{
    let direction = match direction { Direction::In => rusb::Direction::In, Direction::Out => rusb::Direction::Out };
    let kind = match kind {
        RequestType::Standard => rusb::RequestType::Standard, RequestType::Class => rusb::RequestType::Class,
        RequestType::Vendor => rusb::RequestType::Vendor, RequestType::Reserved => rusb::RequestType::Reserved,
    };
    let recipient = match recipient {
        Recipient::Device => rusb::Recipient::Device, Recipient::Interface => rusb::Recipient::Interface,
        Recipient::Endpoint => rusb::Recipient::Endpoint, Recipient::Other => rusb::Recipient::Other,
    };
    rusb::request_type(direction, kind, recipient)
}

/// What the library reads of a device's descriptor.
#[derive(Copy, Clone, Debug, PartialEq, Eq, Structural)]
pub struct DeviceDescriptor {
    pub vendor_id: u16,
    pub product_id: u16,
}

/// An attached device: its descriptor and its place on the bus.
#[derive(Copy, Clone, Debug, PartialEq, Eq, Structural)]
pub struct DeviceInfo {
    pub descriptor: DeviceDescriptor,
    pub bus_number: u8,
    pub address: u8,
}

/// A control transfer from the device to the host.
#[derive(Copy, Clone, Debug, PartialEq, Eq, Structural)]
pub struct ControlRead {
    pub request_type: u8,
    pub request: u8,
    pub value: u16,
    pub index: u16,
    /// The size of the buffer to read into.
    pub length: usize,
    pub timeout_millis: u64,
}

/// A control transfer from the host to the device.
#[derive(Clone, Debug, PartialEq, Eq)]
pub struct ControlWrite {
    pub request_type: u8,
    pub request: u8,
    pub value: u16,
    pub index: u16,
    pub data: Vec<u8>,
    pub timeout_millis: u64,
}

/// A `ControlWrite` as a value, with its data as a sequence.
pub struct ControlWriteView {
    pub request_type: u8,
    pub request: u8,
    pub value: u16,
    pub index: u16,
    pub data: Seq<u8>,
    pub timeout_millis: u64,
}

impl View for ControlWrite {
    type V = ControlWriteView;

    open spec fn view(&self) -> ControlWriteView {
        ControlWriteView {
            request_type: self.request_type,
            request: self.request,
            value: self.value,
            index: self.index,
            data: self.data@,
            timeout_millis: self.timeout_millis,
        }
    }
}

/// A read from an interrupt endpoint.
#[derive(Copy, Clone, Debug, PartialEq, Eq, Structural)]
pub struct InterruptRead {
    pub endpoint: u8,
    /// The size of the buffer to read into.
    pub length: usize,
    pub timeout_millis: u64,
}

/// What the driver is to do next.
#[derive(Clone, Debug, PartialEq, Eq)]
pub enum Action {
    /// List the attached devices. Answered by `Event::Enumerated`.
    Enumerate,
    /// Take the next device of the list and read its descriptor. Answered by
    /// `Event::Device`, `Event::UnreadableDevice` or `Event::NoMoreDevices`.
    NextDevice,
    /// Open the device that was taken last. Answered by `Event::Opened`.
    OpenDevice,
    /// Read the languages of the string table. Answered by
    /// `Event::Languages`.
    ReadLanguages { timeout_millis: u64 },
    /// Make a configuration active. Answered by `Event::Configured`.
    SetActiveConfiguration { configuration: u8 },
    /// Claim an interface. Answered by `Event::Claimed`.
    ClaimInterface { interface: u8 },
    /// Answered by `Event::ControlRead`.
    ReadControl(ControlRead),
    /// Answered by `Event::ControlWritten`.
    WriteControl(ControlWrite),
    /// Pause. Answered by `Event::Slept`.
    Sleep { millis: u64 },
    /// Wait for data on an interrupt endpoint. Answered by
    /// `Event::Interrupt`.
    ReadInterrupt(InterruptRead),
}

/// An `Action` as a value.
pub enum ActionView {
    Enumerate,
    NextDevice,
    OpenDevice,
    ReadLanguages { timeout_millis: u64 },
    SetActiveConfiguration { configuration: u8 },
    ClaimInterface { interface: u8 },
    ReadControl(ControlRead),
    WriteControl(ControlWriteView),
    Sleep { millis: u64 },
    ReadInterrupt(InterruptRead),
}

impl View for Action {
    type V = ActionView;

    open spec fn view(&self) -> ActionView {
        match *self {
            Action::Enumerate => ActionView::Enumerate,
            Action::NextDevice => ActionView::NextDevice,
            Action::OpenDevice => ActionView::OpenDevice,
            Action::ReadLanguages { timeout_millis } => ActionView::ReadLanguages {
                timeout_millis,
            },
            Action::SetActiveConfiguration { configuration } => ActionView::SetActiveConfiguration {
                configuration,
            },
            Action::ClaimInterface { interface } => ActionView::ClaimInterface { interface },
            Action::ReadControl(read) => ActionView::ReadControl(read),
            Action::WriteControl(write) => ActionView::WriteControl(write@),
            Action::Sleep { millis } => ActionView::Sleep { millis },
            Action::ReadInterrupt(read) => ActionView::ReadInterrupt(read),
        }
    }
}

/// How an action went.
#[derive(Debug, PartialEq, Eq)]
pub enum Event {
    /// The attached devices were listed, or could not be.
    Enumerated(Result<(), UsbError>),
    /// The next device of the list.
    Device(DeviceInfo),
    /// The next device of the list gave no descriptor.
    UnreadableDevice,
    /// The list is at its end.
    NoMoreDevices,
    /// The device was opened, or could not be.
    Opened(Result<(), UsbError>),
    /// The identifiers of the string table's languages, or why they could
    /// not be read.
    Languages(Result<Vec<u16>, UsbError>),
    /// The attempt to make the configuration active is over.
    Configured(Result<(), UsbError>),
    /// The interface was claimed, or could not be.
    Claimed(Result<(), UsbError>),
    /// The bytes that the device sent, or why none came.
    ControlRead(Result<Vec<u8>, UsbError>),
    /// The device took the bytes, or the transfer failed.
    ControlWritten(Result<(), UsbError>),
    /// The pause is over.
    Slept,
    /// Whether the interrupt endpoint delivered data in time.
    Interrupt(bool),
}

/// The control transfer that reads up to `length` bytes from the interface.
pub open spec fn spec_control_read(
    kind: RequestType,
    request: u8,
    value: u16,
    index: u16,
    length: usize,
    timeout_millis: u64,
) -> ControlRead {
    ControlRead {
        request_type: spec_request_type(Direction::In, kind, Recipient::Interface),
        request,
        value,
        index,
        length,
        timeout_millis,
    }
}

/// The control transfer that writes `data` to the interface.
pub open spec fn spec_control_write(
    kind: RequestType,
    request: u8,
    value: u16,
    index: u16,
    data: Seq<u8>,
    timeout_millis: u64,
) -> ControlWriteView {
    ControlWriteView {
        request_type: spec_request_type(Direction::Out, kind, Recipient::Interface),
        request,
        value,
        index,
        data,
        timeout_millis,
    }
}

/// The wait for the readiness signal that lasts at most `timeout_millis`.
pub open spec fn spec_await_interrupt(timeout_millis: u64) -> InterruptRead {
    InterruptRead { endpoint: INTERRUPT_ENDPOINT, length: INTERRUPT_LENGTH, timeout_millis }
}

/// Describes the control transfer that reads up to `length` bytes from the
/// interface.
pub fn control_read(
    kind: RequestType,
    request: u8,
    value: u16,
    index: u16,
    length: usize,
    timeout_millis: u64,
) -> (read: ControlRead)
    ensures
        read == spec_control_read(kind, request, value, index, length, timeout_millis),
{
    ControlRead {
        request_type: request_type(Direction::In, kind, Recipient::Interface),
        request,
        value,
        index,
        length,
        timeout_millis,
    }
}

/// Describes the control transfer that writes `data` to the interface.
pub fn control_write(
    kind: RequestType,
    request: u8,
    value: u16,
    index: u16,
    data: Vec<u8>,
    timeout_millis: u64,
) -> (write: ControlWrite)
    ensures
        write@ == spec_control_write(kind, request, value, index, data@, timeout_millis),
{
    ControlWrite {
        request_type: request_type(Direction::Out, kind, Recipient::Interface),
        request,
        value,
        index,
        data,
        timeout_millis,
    }
}

/// Describes the wait for the readiness signal.
pub fn await_interrupt(timeout_millis: u64) -> (read: InterruptRead)
    ensures
        read == spec_await_interrupt(timeout_millis),
{
    InterruptRead { endpoint: INTERRUPT_ENDPOINT, length: INTERRUPT_LENGTH, timeout_millis }
}

/// Whether the identifiers are those of a GoXLR, of either model.
pub open spec fn spec_is_goxlr(descriptor: DeviceDescriptor) -> bool {
    descriptor.vendor_id == VID_GOXLR && (descriptor.product_id == PID_GOXLR_FULL
        || descriptor.product_id == PID_GOXLR_MINI)
}

/// Whether the identifiers are those of a GoXLR, of either model.
pub fn is_goxlr(descriptor: &DeviceDescriptor) -> (matches: bool)
    ensures
        matches == spec_is_goxlr(*descriptor),
{
    descriptor.vendor_id == VID_GOXLR && (descriptor.product_id == PID_GOXLR_FULL
        || descriptor.product_id == PID_GOXLR_MINI)
}

} // verus!
