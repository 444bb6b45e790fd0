use goxlr_usb::connection::{Connection, ConnectionState, Phase};
use goxlr_usb::error::{ConnectError, UsbError};
use goxlr_usb::goxlr::GoXLR;
use goxlr_usb::transfer::{
    Action, ControlRead, ControlWrite, DeviceDescriptor, DeviceInfo, Event,
};

fn full_size() -> DeviceInfo {
    DeviceInfo {
        descriptor: DeviceDescriptor { vendor_id: 0x1220, product_id: 0x8fe0 },
        bus_number: 3,
        address: 17,
    }
}

fn mini() -> DeviceInfo {
    DeviceInfo {
        descriptor: DeviceDescriptor { vendor_id: 0x1220, product_id: 0x8fe4 },
        bus_number: 1,
        address: 2,
    }
}

fn keyboard() -> DeviceInfo {
    DeviceInfo {
        descriptor: DeviceDescriptor { vendor_id: 0x046d, product_id: 0xc31c },
        bus_number: 1,
        address: 4,
    }
}

fn probe() -> Action {
    Action::ReadControl(ControlRead {
        request_type: 0xC1,
        request: 0,
        value: 0,
        index: 0,
        length: 24,
        timeout_millis: 1000,
    })
}

fn handshake_write() -> Action {
    Action::WriteControl(ControlWrite {
        request_type: 0x41,
        request: 1,
        value: 0,
        index: 0,
        data: vec![],
        timeout_millis: 1000,
    })
}

fn late_probe() -> Action {
    Action::ReadControl(ControlRead {
        request_type: 0xC1,
        request: 3,
        value: 0,
        index: 0,
        length: 1040,
        timeout_millis: 1000,
    })
}

#[test]
fn opening_a_full_size_device_goes_through_to_ready() {
    let mut connection = GoXLR::open();
    assert_eq!(connection.phase(), Phase::Unopened);
    assert_eq!(connection.action(), Some(Action::Enumerate));
    connection.handle(Event::Enumerated(Ok(())));
    assert_eq!(connection.action(), Some(Action::NextDevice));
    connection.handle(Event::Device(full_size()));
    assert_eq!(connection.phase(), Phase::Unopened);
    assert_eq!(connection.action(), Some(Action::OpenDevice));
    connection.handle(Event::Opened(Ok(())));
    assert_eq!(connection.phase(), Phase::Opened);
    assert_eq!(connection.action(), Some(Action::ReadLanguages { timeout_millis: 1000 }));
    connection.handle(Event::Languages(Ok(vec![0x0409, 0x0407])));
    assert_eq!(connection.phase(), Phase::Opened);
    assert_eq!(connection.action(), Some(Action::SetActiveConfiguration { configuration: 1 }));
    connection.handle(Event::Configured(Ok(())));
    assert_eq!(connection.phase(), Phase::Opened);
    assert_eq!(connection.action(), Some(Action::ClaimInterface { interface: 0 }));
    connection.handle(Event::Claimed(Ok(())));
    assert_eq!(connection.phase(), Phase::Initialized);
    assert_eq!(connection.action(), Some(probe()));
    connection.handle(Event::ControlRead(Ok(vec![0; 24])));
    assert_eq!(connection.phase(), Phase::Initialized);
    assert_eq!(connection.action(), Some(handshake_write()));
    connection.handle(Event::ControlWritten(Ok(())));
    assert_eq!(connection.phase(), Phase::Initialized);
    assert_eq!(connection.action(), Some(late_probe()));
    connection.handle(Event::ControlRead(Ok(vec![0; 1040])));
    assert_eq!(connection.phase(), Phase::Ready);
    assert_eq!(connection.action(), None);
    assert_eq!(
        connection.state(),
        ConnectionState::Ready { device: full_size(), language: 0x0409, device_is_claimed: true }
    );
    let goxlr = connection.finish().unwrap().unwrap();
    assert_eq!(*goxlr.usb_device_descriptor(), full_size().descriptor);
    assert_eq!(goxlr.usb_bus_number(), 3);
    assert_eq!(goxlr.usb_address(), 17);
    assert_eq!(goxlr.language(), 0x0409);
    assert_eq!(goxlr.command_count(), 0);
    assert!(goxlr.usb_device_is_claimed());
}

#[test]
fn mini_is_opened_too() {
    let mut connection = GoXLR::open();
    connection.handle(Event::Enumerated(Ok(())));
    connection.handle(Event::Device(mini()));
    assert_eq!(
        connection.state(),
        ConnectionState::Opening { device: mini(), error: ConnectError::DeviceNotFound }
    );
}

#[test]
fn search_passes_over_other_devices() {
    let mut connection = GoXLR::open();
    connection.handle(Event::Enumerated(Ok(())));
    connection.handle(Event::Device(keyboard()));
    assert_eq!(connection.action(), Some(Action::NextDevice));
    connection.handle(Event::UnreadableDevice);
    assert_eq!(connection.action(), Some(Action::NextDevice));
    connection.handle(Event::Device(full_size()));
    assert_eq!(connection.action(), Some(Action::OpenDevice));
}

#[test]
fn no_matching_device_is_device_not_found() {
    let mut connection = GoXLR::open();
    connection.handle(Event::Enumerated(Ok(())));
    connection.handle(Event::Device(keyboard()));
    connection.handle(Event::NoMoreDevices);
    assert_eq!(connection.phase(), Phase::Failed(ConnectError::DeviceNotFound));
    assert_eq!(connection.action(), None);
    assert_eq!(connection.finish(), Some(Err(ConnectError::DeviceNotFound)));
}

#[test]
fn empty_bus_is_device_not_found() {
    let mut connection = Connection::open();
    connection.handle(Event::Enumerated(Ok(())));
    connection.handle(Event::NoMoreDevices);
    assert_eq!(connection.finish(), Some(Err(ConnectError::DeviceNotFound)));
}

#[test]
fn failed_enumeration_is_a_usb_error() {
    let mut connection = GoXLR::open();
    connection.handle(Event::Enumerated(Err(UsbError::Access)));
    assert_eq!(connection.finish(), Some(Err(ConnectError::UsbError(UsbError::Access))));
}

#[test]
fn open_failure_without_another_device_is_reported() {
    let mut connection = GoXLR::open();
    connection.handle(Event::Enumerated(Ok(())));
    connection.handle(Event::Device(full_size()));
    connection.handle(Event::Opened(Err(UsbError::Busy)));
    connection.handle(Event::NoMoreDevices);
    assert_eq!(connection.finish(), Some(Err(ConnectError::UsbError(UsbError::Busy))));
}

#[test]
fn device_that_cannot_be_opened_is_skipped_and_its_error_kept() {
    let mut connection = GoXLR::open();
    connection.handle(Event::Enumerated(Ok(())));
    connection.handle(Event::Device(full_size()));
    connection.handle(Event::Opened(Err(UsbError::Busy)));
    assert_eq!(connection.phase(), Phase::Unopened);
    assert_eq!(connection.action(), Some(Action::NextDevice));
    assert_eq!(
        connection.state(),
        ConnectionState::Listing { error: ConnectError::UsbError(UsbError::Busy) }
    );
    connection.handle(Event::Device(mini()));
    assert_eq!(connection.action(), Some(Action::OpenDevice));
    connection.handle(Event::Opened(Ok(())));
    assert_eq!(connection.state(), ConnectionState::ReadingLanguages { device: mini() });
}

#[test]
fn last_open_failure_is_the_one_reported() {
    let mut connection = GoXLR::open();
    connection.handle(Event::Enumerated(Ok(())));
    connection.handle(Event::Device(full_size()));
    connection.handle(Event::Opened(Err(UsbError::Busy)));
    connection.handle(Event::Device(mini()));
    connection.handle(Event::Opened(Err(UsbError::Access)));
    connection.handle(Event::NoMoreDevices);
    assert_eq!(connection.finish(), Some(Err(ConnectError::UsbError(UsbError::Access))));
}

#[test]
fn from_device_starts_with_the_languages() {
    let connection = GoXLR::from_device(keyboard());
    assert_eq!(connection.phase(), Phase::Opened);
    assert_eq!(connection.state(), ConnectionState::ReadingLanguages { device: keyboard() });
    assert_eq!(connection.action(), Some(Action::ReadLanguages { timeout_millis: 1000 }));
    assert_eq!(connection.finish(), None);
}

#[test]
fn empty_language_list_is_not_a_goxlr() {
    let mut connection = GoXLR::from_device(full_size());
    connection.handle(Event::Languages(Ok(vec![])));
    assert_eq!(connection.phase(), Phase::Failed(ConnectError::DeviceNotGoXLR));
    assert_eq!(connection.finish(), Some(Err(ConnectError::DeviceNotGoXLR)));
}

#[test]
fn unreadable_language_list_is_not_a_goxlr() {
    let mut connection = GoXLR::from_device(full_size());
    connection.handle(Event::Languages(Err(UsbError::Pipe)));
    assert_eq!(connection.finish(), Some(Err(ConnectError::DeviceNotGoXLR)));
}

#[test]
fn failed_configuration_and_claim_are_tolerated() {
    let mut connection = GoXLR::from_device(full_size());
    connection.handle(Event::Languages(Ok(vec![0x0809])));
    connection.handle(Event::Configured(Err(UsbError::Busy)));
    assert_eq!(connection.action(), Some(Action::ClaimInterface { interface: 0 }));
    connection.handle(Event::Claimed(Err(UsbError::Access)));
    assert_eq!(connection.action(), Some(probe()));
    connection.handle(Event::ControlRead(Ok(vec![])));
    connection.handle(Event::ControlWritten(Ok(())));
    connection.handle(Event::ControlRead(Ok(vec![1, 2, 3])));
    let goxlr = connection.finish().unwrap().unwrap();
    assert!(!goxlr.usb_device_is_claimed());
    assert_eq!(goxlr.language(), 0x0809);
}

#[test]
fn each_handshake_transfer_can_fail_bring_up() {
    let opened = || {
        let mut connection = GoXLR::from_device(full_size());
        connection.handle(Event::Languages(Ok(vec![0x0409])));
        connection.handle(Event::Configured(Ok(())));
        connection.handle(Event::Claimed(Ok(())));
        connection
    };
    let mut first = opened();
    first.handle(Event::ControlRead(Err(UsbError::Timeout)));
    assert_eq!(first.finish(), Some(Err(ConnectError::UsbError(UsbError::Timeout))));
    let mut second = opened();
    second.handle(Event::ControlRead(Ok(vec![])));
    second.handle(Event::ControlWritten(Err(UsbError::Pipe)));
    assert_eq!(second.finish(), Some(Err(ConnectError::UsbError(UsbError::Pipe))));
    let mut third = opened();
    third.handle(Event::ControlRead(Ok(vec![])));
    third.handle(Event::ControlWritten(Ok(())));
    third.handle(Event::ControlRead(Err(UsbError::NoDevice)));
    assert_eq!(third.finish(), Some(Err(ConnectError::UsbError(UsbError::NoDevice))));
}

#[test]
fn events_that_answer_nothing_change_nothing() {
    let mut connection = GoXLR::from_device(full_size());
    let before = connection.state();
    connection.handle(Event::Slept);
    connection.handle(Event::ControlRead(Ok(vec![0; 24])));
    connection.handle(Event::Claimed(Ok(())));
    connection.handle(Event::NoMoreDevices);
    connection.handle(Event::Interrupt(true));
    assert_eq!(connection.state(), before);
}

#[test]
fn ready_and_failed_are_final() {
    let mut failed = GoXLR::open();
    failed.handle(Event::Enumerated(Err(UsbError::Io)));
    let snapshot = failed.state();
    failed.handle(Event::Enumerated(Ok(())));
    failed.handle(Event::Device(full_size()));
    failed.handle(Event::Opened(Ok(())));
    assert_eq!(failed.state(), snapshot);
    assert_eq!(failed.finish(), Some(Err(ConnectError::UsbError(UsbError::Io))));

    let mut ready = GoXLR::from_device(full_size());
    ready.handle(Event::Languages(Ok(vec![0x0409])));
    ready.handle(Event::Configured(Ok(())));
    ready.handle(Event::Claimed(Ok(())));
    ready.handle(Event::ControlRead(Ok(vec![])));
    ready.handle(Event::ControlWritten(Ok(())));
    ready.handle(Event::ControlRead(Ok(vec![])));
    let snapshot = ready.state();
    ready.handle(Event::ControlRead(Err(UsbError::Io)));
    ready.handle(Event::ControlWritten(Err(UsbError::Io)));
    ready.handle(Event::Languages(Ok(vec![])));
    assert_eq!(ready.state(), snapshot);
    assert_eq!(ready.phase(), Phase::Ready);
}
