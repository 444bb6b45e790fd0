//! Bring-up: from the search for a device to a connection that is ready.
//!
//! A connection is unopened while a device is looked for, opened once one
//! was opened, initialised once its language is known and its interface was
//! asked for, and ready after the handshake. It fails for good when no
//! device is found, when the device gives no language, or when a transfer of
//! the handshake fails.

use crate::error::{ConnectError, UsbError};
use crate::goxlr::{GoXLR, GoXLRView};
use crate::transfer::{
    control_read, control_write, is_goxlr, spec_control_read, spec_control_write, spec_is_goxlr,
    Action, ActionView, ControlRead, ControlWriteView, DeviceInfo, Event, RequestType,
    CONFIGURATION, CONTROL_TIMEOUT_MILLIS, INTERFACE, PROBE_LENGTH, REPLY_LENGTH, REQUEST_FETCH,
    REQUEST_HANDSHAKE, REQUEST_PROBE,
};
use vstd::prelude::*;

verus! {

/// How far a connection has come.
#[derive(Copy, Clone, Debug, PartialEq, Eq, Structural)]
pub enum Phase {
    Unopened,
    Opened,
    Initialized,
    Ready,
    Failed(ConnectError),
}

/// Where bring-up stands, step by step.
#[derive(Copy, Clone, Debug, PartialEq, Eq, Structural)]
pub enum ConnectionState {
    /// The attached devices are to be listed.
    Enumerating,
    /// The list is gone through. `error` is what the search ends with if no
    /// device can be opened.
    Listing { error: ConnectError },
    /// A device with the right identifiers is to be opened.
    Opening { device: DeviceInfo, error: ConnectError },
    /// The device is open; its languages are to be read.
    ReadingLanguages { device: DeviceInfo },
    /// The configuration is to be made active.
    Configuring { device: DeviceInfo, language: u16 },
    /// The control interface is to be claimed.
    Claiming { device: DeviceInfo, language: u16 },
    /// First step of the handshake: a read of twenty-four bytes.
    Probing { device: DeviceInfo, language: u16, device_is_claimed: bool },
    /// Second step of the handshake: an empty write.
    Handshaking { device: DeviceInfo, language: u16, device_is_claimed: bool },
    /// Third step of the handshake: a read of a whole reply buffer.
    LateProbing { device: DeviceInfo, language: u16, device_is_claimed: bool },
    /// The device takes commands.
    Ready { device: DeviceInfo, language: u16, device_is_claimed: bool },
    /// Bring-up failed for good.
    Failed { reason: ConnectError },
}

impl ConnectionState {
    /// How far the connection has come.
    pub open spec fn phase(self) -> Phase {
        match self {
            ConnectionState::Enumerating => Phase::Unopened,
            ConnectionState::Listing { .. } => Phase::Unopened,
            ConnectionState::Opening { .. } => Phase::Unopened,
            ConnectionState::ReadingLanguages { .. } => Phase::Opened,
            ConnectionState::Configuring { .. } => Phase::Opened,
            ConnectionState::Claiming { .. } => Phase::Opened,
            ConnectionState::Probing { .. } => Phase::Initialized,
            ConnectionState::Handshaking { .. } => Phase::Initialized,
            ConnectionState::LateProbing { .. } => Phase::Initialized,
            ConnectionState::Ready { .. } => Phase::Ready,
            ConnectionState::Failed { reason } => Phase::Failed(reason),
        }
    }

    /// What the driver is to do in this state; nothing once bring-up is
    /// over.
    pub open spec fn action(self) -> Option<ActionView> {
        match self {
            ConnectionState::Enumerating => Some(ActionView::Enumerate),
            ConnectionState::Listing { .. } => Some(ActionView::NextDevice),
            ConnectionState::Opening { .. } => Some(ActionView::OpenDevice),
            ConnectionState::ReadingLanguages { .. } => Some(
                ActionView::ReadLanguages { timeout_millis: CONTROL_TIMEOUT_MILLIS },
            ),
            ConnectionState::Configuring { .. } => Some(
                ActionView::SetActiveConfiguration { configuration: CONFIGURATION },
            ),
            ConnectionState::Claiming { .. } => Some(
                ActionView::ClaimInterface { interface: INTERFACE },
            ),
            ConnectionState::Probing { .. } => Some(
                ActionView::ReadControl(
                    spec_control_read(
                        RequestType::Vendor,
                        REQUEST_PROBE,
                        0,
                        0,
                        PROBE_LENGTH,
                        CONTROL_TIMEOUT_MILLIS,
                    ),
                ),
            ),
            ConnectionState::Handshaking { .. } => Some(
                ActionView::WriteControl(
                    spec_control_write(
                        RequestType::Vendor,
                        REQUEST_HANDSHAKE,
                        0,
                        0,
                        Seq::<u8>::empty(),
                        CONTROL_TIMEOUT_MILLIS,
                    ),
                ),
            ),
            ConnectionState::LateProbing { .. } => Some(
                ActionView::ReadControl(
                    spec_control_read(
                        RequestType::Vendor,
                        REQUEST_FETCH,
                        0,
                        0,
                        REPLY_LENGTH,
                        CONTROL_TIMEOUT_MILLIS,
                    ),
                ),
            ),
            ConnectionState::Ready { .. } => None,
            ConnectionState::Failed { .. } => None,
        }
    }

    /// The state after `event`. An event that does not answer the state's
    /// action changes nothing.
    pub open spec fn handle(self, event: Event) -> ConnectionState {
        match (self, event) {
            (ConnectionState::Enumerating, Event::Enumerated(Ok(_))) => ConnectionState::Listing {
                error: ConnectError::DeviceNotFound,
            },
            (ConnectionState::Enumerating, Event::Enumerated(Err(e))) => ConnectionState::Failed {
                reason: ConnectError::UsbError(e),
            },
            (ConnectionState::Listing { error }, Event::Device(device)) => if spec_is_goxlr(
                device.descriptor,
            ) {
                ConnectionState::Opening { device, error }
            } else {
                self
            },
            (ConnectionState::Listing { error }, Event::NoMoreDevices) => ConnectionState::Failed {
                reason: error,
            },
            (ConnectionState::Opening { device, error }, Event::Opened(Ok(_))) => {
                ConnectionState::ReadingLanguages { device }
            },
            (ConnectionState::Opening { device, error }, Event::Opened(Err(e))) => {
                ConnectionState::Listing { error: ConnectError::UsbError(e) }
            },
            (ConnectionState::ReadingLanguages { device }, Event::Languages(Ok(languages))) => {
                if languages@.len() > 0 {
                    ConnectionState::Configuring { device, language: languages@[0] }
                } else {
                    ConnectionState::Failed { reason: ConnectError::DeviceNotGoXLR }
                }
            },
            (ConnectionState::ReadingLanguages { device }, Event::Languages(Err(_))) => {
                ConnectionState::Failed { reason: ConnectError::DeviceNotGoXLR }
            },
            (ConnectionState::Configuring { device, language }, Event::Configured(_)) => {
                ConnectionState::Claiming { device, language }
            },
            (ConnectionState::Claiming { device, language }, Event::Claimed(claimed)) => {
                ConnectionState::Probing { device, language, device_is_claimed: claimed.is_ok() }
            },
            (
                ConnectionState::Probing { device, language, device_is_claimed },
                Event::ControlRead(Ok(_)),
            ) => ConnectionState::Handshaking { device, language, device_is_claimed },
            (ConnectionState::Probing { .. }, Event::ControlRead(Err(e))) => {
                ConnectionState::Failed { reason: ConnectError::UsbError(e) }
            },
            (
                ConnectionState::Handshaking { device, language, device_is_claimed },
                Event::ControlWritten(Ok(_)),
            ) => ConnectionState::LateProbing { device, language, device_is_claimed },
            (ConnectionState::Handshaking { .. }, Event::ControlWritten(Err(e))) => {
                ConnectionState::Failed { reason: ConnectError::UsbError(e) }
            },
            (
                ConnectionState::LateProbing { device, language, device_is_claimed },
                Event::ControlRead(Ok(_)),
            ) => ConnectionState::Ready { device, language, device_is_claimed },
            (ConnectionState::LateProbing { .. }, Event::ControlRead(Err(e))) => {
                ConnectionState::Failed { reason: ConnectError::UsbError(e) }
            },
            _ => self,
        }
    }

    /// What bring-up ended with: the fresh connection or the failure;
    /// nothing while it is under way.
    pub open spec fn outcome(self) -> Option<Result<GoXLRView, ConnectError>> {
        match self {
            ConnectionState::Ready { device, language, device_is_claimed } => Some(
                Ok(GoXLRView::fresh(device, language, device_is_claimed)),
            ),
            ConnectionState::Failed { reason } => Some(Err(reason)),
            _ => None,
        }
    }
}

/// A connection on its way to being ready.
#[derive(Debug, PartialEq, Eq)]
pub struct Connection {
    state: ConnectionState,
}

impl View for Connection {
    type V = ConnectionState;

    closed spec fn view(&self) -> ConnectionState {
        self.state
    }
}

impl Connection {
    /// The connection before anything was done: a device is yet to be
    /// found.
    pub fn open() -> (connection: Connection)
        ensures
            connection@ == ConnectionState::Enumerating,
    {
        Connection { state: ConnectionState::Enumerating }
    }

    /// The connection to a device that was opened already.
    pub fn from_device(device: DeviceInfo) -> (connection: Connection)
        ensures
            connection@ == (ConnectionState::ReadingLanguages { device }),
    {
        Connection { state: ConnectionState::ReadingLanguages { device } }
    }

    /// Where bring-up stands.
    pub fn state(&self) -> (state: ConnectionState)
        ensures
            state == self@,
    {
        self.state
    }

    /// How far the connection has come.
    pub fn phase(&self) -> (phase: Phase)
        ensures
            phase == self@.phase(),
    {
        match self.state {
            ConnectionState::Enumerating => Phase::Unopened,
            ConnectionState::Listing { .. } => Phase::Unopened,
            ConnectionState::Opening { .. } => Phase::Unopened,
            ConnectionState::ReadingLanguages { .. } => Phase::Opened,
            ConnectionState::Configuring { .. } => Phase::Opened,
            ConnectionState::Claiming { .. } => Phase::Opened,
            ConnectionState::Probing { .. } => Phase::Initialized,
            ConnectionState::Handshaking { .. } => Phase::Initialized,
            ConnectionState::LateProbing { .. } => Phase::Initialized,
            ConnectionState::Ready { .. } => Phase::Ready,
            ConnectionState::Failed { reason } => Phase::Failed(reason),
        }
    }

    /// What the driver is to do now; `None` once bring-up is over.
    pub fn action(&self) -> (action: Option<Action>)
        ensures
            match action {
                Some(a) => self@.action() == Some(a@),
                None => self@.action().is_none(),
            },
    {
        match self.state {
            ConnectionState::Enumerating => Some(Action::Enumerate),
            ConnectionState::Listing { .. } => Some(Action::NextDevice),
            ConnectionState::Opening { .. } => Some(Action::OpenDevice),
            ConnectionState::ReadingLanguages { .. } => Some(
                Action::ReadLanguages { timeout_millis: CONTROL_TIMEOUT_MILLIS },
            ),
            ConnectionState::Configuring { .. } => Some(
                Action::SetActiveConfiguration { configuration: CONFIGURATION },
            ),
            ConnectionState::Claiming { .. } => Some(Action::ClaimInterface { interface: INTERFACE }),
            ConnectionState::Probing { .. } => Some(
                Action::ReadControl(
                    control_read(
                        RequestType::Vendor,
                        REQUEST_PROBE,
                        0,
                        0,
                        PROBE_LENGTH,
                        CONTROL_TIMEOUT_MILLIS,
                    ),
                ),
            ),
            ConnectionState::Handshaking { .. } => Some(
                Action::WriteControl(
                    control_write(
                        RequestType::Vendor,
                        REQUEST_HANDSHAKE,
                        0,
                        0,
                        Vec::new(),
                        CONTROL_TIMEOUT_MILLIS,
                    ),
                ),
            ),
            ConnectionState::LateProbing { .. } => Some(
                Action::ReadControl(
                    control_read(
                        RequestType::Vendor,
                        REQUEST_FETCH,
                        0,
                        0,
                        REPLY_LENGTH,
                        CONTROL_TIMEOUT_MILLIS,
                    ),
                ),
            ),
            ConnectionState::Ready { .. } => None,
            ConnectionState::Failed { .. } => None,
        }
    }

    /// Takes in how the pending action went and moves to the next state. An
    /// event that does not answer the pending action changes nothing.
    pub fn handle(&mut self, event: Event)
        ensures
            final(self)@ == old(self)@.handle(event),
    {
        match self.state {
            ConnectionState::Enumerating => match event {
                Event::Enumerated(Ok(_)) => {
                    self.state = ConnectionState::Listing { error: ConnectError::DeviceNotFound };
                },
                Event::Enumerated(Err(e)) => {
                    self.state = ConnectionState::Failed { reason: ConnectError::UsbError(e) };
                },
                _ => {},
            },
            ConnectionState::Listing { error } => match event {
                Event::Device(device) => {
                    if is_goxlr(&device.descriptor) {
                        self.state = ConnectionState::Opening { device, error };
                    }
                },
                Event::NoMoreDevices => {
                    self.state = ConnectionState::Failed { reason: error };
                },
                _ => {},
            },
            ConnectionState::Opening { device, error: _ } => match event {
                Event::Opened(Ok(_)) => {
                    self.state = ConnectionState::ReadingLanguages { device };
                },
                Event::Opened(Err(e)) => {
                    self.state = ConnectionState::Listing { error: ConnectError::UsbError(e) };
                },
                _ => {},
            },
            ConnectionState::ReadingLanguages { device } => match event {
                Event::Languages(Ok(languages)) => {
                    if languages.len() > 0 {
                        self.state = ConnectionState::Configuring { device, language: languages[0] };
                    } else {
                        self.state = ConnectionState::Failed { reason: ConnectError::DeviceNotGoXLR };
                    }
                },
                Event::Languages(Err(_)) => {
                    self.state = ConnectionState::Failed { reason: ConnectError::DeviceNotGoXLR };
                },
                _ => {},
            },
            ConnectionState::Configuring { device, language } => match event {
                Event::Configured(_) => {
                    self.state = ConnectionState::Claiming { device, language };
                },
                _ => {},
            },
            ConnectionState::Claiming { device, language } => match event {
                Event::Claimed(claimed) => {
                    self.state = ConnectionState::Probing {
                        device,
                        language,
                        device_is_claimed: claimed.is_ok(),
                    };
                },
                _ => {},
            },
            ConnectionState::Probing { device, language, device_is_claimed } => match event {
                Event::ControlRead(Ok(_)) => {
                    self.state = ConnectionState::Handshaking { device, language, device_is_claimed };
                },
                Event::ControlRead(Err(e)) => {
                    self.state = ConnectionState::Failed { reason: ConnectError::UsbError(e) };
                },
                _ => {},
            },
            ConnectionState::Handshaking { device, language, device_is_claimed } => match event {
                Event::ControlWritten(Ok(_)) => {
                    self.state = ConnectionState::LateProbing { device, language, device_is_claimed };
                },
                Event::ControlWritten(Err(e)) => {
                    self.state = ConnectionState::Failed { reason: ConnectError::UsbError(e) };
                },
                _ => {},
            },
            ConnectionState::LateProbing { device, language, device_is_claimed } => match event {
                Event::ControlRead(Ok(_)) => {
                    self.state = ConnectionState::Ready { device, language, device_is_claimed };
                },
                Event::ControlRead(Err(e)) => {
                    self.state = ConnectionState::Failed { reason: ConnectError::UsbError(e) };
                },
                _ => {},
            },
            ConnectionState::Ready { .. } => {},
            ConnectionState::Failed { .. } => {},
        }
    }

    /// Ends bring-up and hands out what it came to: the connection, or why
    /// there is none; `None` while bring-up is under way.
    pub fn finish(self) -> (outcome: Option<Result<GoXLR, ConnectError>>)
        ensures
            match outcome {
                Some(Ok(goxlr)) => self@.outcome() == Some(Ok::<GoXLRView, ConnectError>(goxlr@)),
                Some(Err(reason)) => self@.outcome() == Some(Err::<GoXLRView, ConnectError>(reason)),
                None => self@.outcome().is_none(),
            },
    {
        match self.state {
            ConnectionState::Ready { device, language, device_is_claimed } => Some(
                Ok(GoXLR::new(device, language, device_is_claimed)),
            ),
            ConnectionState::Failed { reason } => Some(Err(reason)),
            _ => None,
        }
    }
}

/// The place of a phase in the order of bring-up. A failure comes last:
/// nothing follows it.
pub open spec fn phase_rank(phase: Phase) -> nat {
    match phase {
        Phase::Unopened => 0,
        Phase::Opened => 1,
        Phase::Initialized => 2,
        Phase::Ready => 3,
        Phase::Failed(_) => 4,
    }
}

/// Bring-up is over exactly when nothing is left to do, and then no event
/// changes the connection any more: being ready and having failed are final.
pub proof fn lemma_over_is_final(state: ConnectionState, event: Event)
    ensures
        state.outcome().is_some() <==> state.action().is_none(),
        state.outcome().is_some() <==> (state.phase() == Phase::Ready || state.phase() is Failed),
        state.outcome().is_some() ==> state.handle(event) == state,
{
}

/// No event takes a connection back to an earlier phase, and none skips a
/// phase on the way to being ready.
pub proof fn lemma_phase_order(state: ConnectionState, event: Event)
    ensures
        phase_rank(state.phase()) <= phase_rank(state.handle(event).phase()),
        !(state.handle(event).phase() is Failed) ==> phase_rank(state.handle(event).phase())
            <= phase_rank(state.phase()) + 1,
{
}

/// The search opens a device only if its identifiers are those of a GoXLR,
/// passes over every other, and ends with `DeviceNotFound` when the list
/// holds no device that could be tried. When a device cannot be opened the
/// search goes on, and ends with that failure if no later device opens.
pub proof fn lemma_search(device: DeviceInfo, error: ConnectError, failure: UsbError)
    ensures
        ConnectionState::Enumerating.handle(Event::Enumerated(Ok(()))).handle(Event::NoMoreDevices)
            == (ConnectionState::Failed { reason: ConnectError::DeviceNotFound }),
        ConnectionState::Enumerating.handle(Event::Enumerated(Err(failure)))
            == (ConnectionState::Failed { reason: ConnectError::UsbError(failure) }),
        spec_is_goxlr(device.descriptor) ==> (ConnectionState::Listing { error }).handle(
            Event::Device(device),
        ) == (ConnectionState::Opening { device, error }),
        !spec_is_goxlr(device.descriptor) ==> (ConnectionState::Listing { error }).handle(
            Event::Device(device),
        ) == (ConnectionState::Listing { error }),
        (ConnectionState::Listing { error }).handle(Event::UnreadableDevice)
            == (ConnectionState::Listing { error }),
        (ConnectionState::Opening { device, error }).handle(Event::Opened(Err(failure))).handle(
            Event::NoMoreDevices,
        ) == (ConnectionState::Failed { reason: ConnectError::UsbError(failure) }),
        (ConnectionState::Opening { device, error }).handle(Event::Opened(Ok(())))
            == (ConnectionState::ReadingLanguages { device }),
{
}

/// A device that gives no language is no GoXLR, whether its list is empty
/// or could not be read.
pub proof fn lemma_no_language(device: DeviceInfo, languages: Result<Vec<u16>, UsbError>)
    requires
        languages matches Ok(list) ==> list@.len() == 0,
    ensures
        (ConnectionState::ReadingLanguages { device }).handle(Event::Languages(languages))
            == (ConnectionState::Failed { reason: ConnectError::DeviceNotGoXLR }),
{
}

/// Bring-up of an opened device, when every transfer succeeds: the language
/// is read, the configuration made active, the interface asked for, and then
/// the handshake runs once and in its order: a read of 24 bytes by vendor
/// request 0, an empty write by vendor request 1, a read of 1040 bytes by
/// vendor request 3. What the three transfers of the handshake bring is
/// dropped, and so is the result of making the configuration active. A claim
/// that fails is put down and does not stop bring-up.
pub proof fn lemma_bring_up(
    device: DeviceInfo,
    languages: Vec<u16>,
    configured: Result<(), UsbError>,
    claimed: Result<(), UsbError>,
    probe: Vec<u8>,
    late_probe: Vec<u8>,
)
    requires
        languages@.len() > 0,
    ensures
        ({
            let opened = ConnectionState::ReadingLanguages { device };
            let s1 = opened.handle(Event::Languages(Ok(languages)));
            let s2 = s1.handle(Event::Configured(configured));
            let s3 = s2.handle(Event::Claimed(claimed));
            let s4 = s3.handle(Event::ControlRead(Ok(probe)));
            let s5 = s4.handle(Event::ControlWritten(Ok(())));
            let s6 = s5.handle(Event::ControlRead(Ok(late_probe)));
            &&& opened.phase() == Phase::Opened
            &&& opened.action() == Some(
                ActionView::ReadLanguages { timeout_millis: CONTROL_TIMEOUT_MILLIS },
            )
            &&& s1.phase() == Phase::Opened
            &&& s1.action() == Some(ActionView::SetActiveConfiguration { configuration: 1 })
            &&& s2.phase() == Phase::Opened
            &&& s2.action() == Some(ActionView::ClaimInterface { interface: 0 })
            &&& s3.phase() == Phase::Initialized
            &&& s3.action() == Some(
                ActionView::ReadControl(
                    ControlRead {
                        request_type: 0xC1,
                        request: 0,
                        value: 0,
                        index: 0,
                        length: 24,
                        timeout_millis: CONTROL_TIMEOUT_MILLIS,
                    },
                ),
            )
            &&& s4.phase() == Phase::Initialized
            &&& s4.action() == Some(
                ActionView::WriteControl(
                    ControlWriteView {
                        request_type: 0x41,
                        request: 1,
                        value: 0,
                        index: 0,
                        data: Seq::<u8>::empty(),
                        timeout_millis: CONTROL_TIMEOUT_MILLIS,
                    },
                ),
            )
            &&& s5.phase() == Phase::Initialized
            &&& s5.action() == Some(
                ActionView::ReadControl(
                    ControlRead {
                        request_type: 0xC1,
                        request: 3,
                        value: 0,
                        index: 0,
                        length: 1040,
                        timeout_millis: CONTROL_TIMEOUT_MILLIS,
                    },
                ),
            )
            &&& s6.phase() == Phase::Ready
            &&& s6.action().is_none()
            &&& s6.outcome() == Some(
                Ok::<GoXLRView, ConnectError>(
                    GoXLRView::fresh(device, languages@[0], claimed.is_ok()),
                ),
            )
        }),
{
}

/// A transfer of the handshake that fails ends bring-up with that failure.
pub proof fn lemma_handshake_failure(
    device: DeviceInfo,
    language: u16,
    device_is_claimed: bool,
    failure: UsbError,
)
    ensures
        (ConnectionState::Probing { device, language, device_is_claimed }).handle(
            Event::ControlRead(Err(failure)),
        ) == (ConnectionState::Failed { reason: ConnectError::UsbError(failure) }),
        (ConnectionState::Handshaking { device, language, device_is_claimed }).handle(
            Event::ControlWritten(Err(failure)),
        ) == (ConnectionState::Failed { reason: ConnectError::UsbError(failure) }),
        (ConnectionState::LateProbing { device, language, device_is_claimed }).handle(
            Event::ControlRead(Err(failure)),
        ) == (ConnectionState::Failed { reason: ConnectError::UsbError(failure) }),
{
}

} // verus!
