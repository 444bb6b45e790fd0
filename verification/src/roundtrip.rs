//! One request and its reply, as a state machine.
//!
//! A round trip submits the request frame, pauses, waits for the device's
//! readiness signal, fetches the reply and decodes it. The machine names each
//! step as an [`Action`] and moves on when it is told how the step went.

use crate::error::RequestError;
use crate::error::UsbError;
use crate::frame::{
    decode_reply, encode_request, lemma_decode_encode, spec_decode_reply, spec_encode, FrameError,
};
use crate::transfer::{
    await_interrupt, control_read, control_write, spec_await_interrupt, spec_control_read,
    spec_control_write, Action, ActionView, ControlRead, ControlWriteView, Event, InterruptRead,
    RequestType, READY_TIMEOUT_MILLIS, REPLY_LENGTH, REQUEST_FETCH, REQUEST_SUBMIT,
    SETTLE_MILLIS,
};
use vstd::prelude::*;

verus! {

/// Where a round trip stands.
#[derive(Debug, PartialEq, Eq)]
enum Stage {
    Submit,
    Settle,
    AwaitReady,
    Fetch,
    Done(Result<Vec<u8>, RequestError>),
}

/// Where a round trip stands, as a value.
pub enum StageView {
    /// The request frame is to be written.
    Submit,
    /// The device is given time to work.
    Settle,
    /// The readiness signal is waited for.
    AwaitReady,
    /// The reply is to be read.
    Fetch,
    /// The round trip is over: the reply's body, or why there is none.
    Done(Result<Seq<u8>, RequestError>),
}

/// A request on its way to the device and back.
#[derive(Debug, PartialEq, Eq)]
pub struct RoundTrip {
    stage: Stage,
    command_id: u32,
    frame: Vec<u8>,
    sequence: u16,
    timeout_millis: u64,
}

/// A round trip as a value.
pub struct RoundTripView {
    pub stage: StageView,
    /// The identifier of the command that is requested.
    pub command_id: u32,
    /// The request frame.
    pub frame: Seq<u8>,
    /// The sequence number of the request, which the reply must echo.
    pub sequence: u16,
    /// The time allowed for each control transfer.
    pub timeout_millis: u64,
}

/// What a fetched reply means for the request numbered `sequence`: its body,
/// or that the connection is out of step.
pub open spec fn spec_reply_outcome(reply: Seq<u8>, sequence: u16) -> Result<
    Seq<u8>,
    RequestError,
> {
    match spec_decode_reply(reply, sequence) {
        Ok(body) => Ok(body),
        Err(error) => Err(RequestError::Desynchronized(error)),
    }
}

impl RoundTripView {
    /// The round trip of a request before anything was done: its frame is
    /// that of the command identifier, the sequence number and the body.
    pub open spec fn start(
        command_id: u32,
        sequence: u16,
        body: Seq<u8>,
        timeout_millis: u64,
    ) -> RoundTripView {
        RoundTripView {
            stage: StageView::Submit,
            command_id,
            frame: spec_encode(command_id, sequence, body),
            sequence,
            timeout_millis,
        }
    }

    /// What the driver is to do at this stage; nothing once the round trip is
    /// over.
    pub open spec fn action(self) -> Option<ActionView> {
        match self.stage {
            StageView::Submit => Some(
                ActionView::WriteControl(
                    spec_control_write(
                        RequestType::Vendor,
                        REQUEST_SUBMIT,
                        0,
                        0,
                        self.frame,
                        self.timeout_millis,
                    ),
                ),
            ),
            StageView::Settle => Some(ActionView::Sleep { millis: SETTLE_MILLIS }),
            StageView::AwaitReady => Some(
                ActionView::ReadInterrupt(spec_await_interrupt(READY_TIMEOUT_MILLIS)),
            ),
            StageView::Fetch => Some(
                ActionView::ReadControl(
                    spec_control_read(
                        RequestType::Vendor,
                        REQUEST_FETCH,
                        0,
                        0,
                        REPLY_LENGTH,
                        self.timeout_millis,
                    ),
                ),
            ),
            StageView::Done(_) => None,
        }
    }

    /// The stage after `event`. An event that does not answer the stage's
    /// action changes nothing.
    pub open spec fn handle(self, event: Event) -> RoundTripView {
        match (self.stage, event) {
            (StageView::Submit, Event::ControlWritten(Ok(_))) => RoundTripView {
                stage: StageView::Settle,
                ..self
            },
            (StageView::Submit, Event::ControlWritten(Err(error))) => RoundTripView {
                stage: StageView::Done(Err(RequestError::Transport(error))),
                ..self
            },
            (StageView::Settle, Event::Slept) => RoundTripView {
                stage: StageView::AwaitReady,
                ..self
            },
            (StageView::AwaitReady, Event::Interrupt(_)) => RoundTripView {
                stage: StageView::Fetch,
                ..self
            },
            (StageView::Fetch, Event::ControlRead(Ok(reply))) => RoundTripView {
                stage: StageView::Done(spec_reply_outcome(reply@, self.sequence)),
                ..self
            },
            (StageView::Fetch, Event::ControlRead(Err(error))) => RoundTripView {
                stage: StageView::Done(Err(RequestError::Transport(error))),
                ..self
            },
            _ => self,
        }
    }

    /// The result of the round trip, once it is over.
    pub open spec fn outcome(self) -> Option<Result<Seq<u8>, RequestError>> {
        match self.stage {
            StageView::Done(result) => Some(result),
            _ => None,
        }
    }
}

impl View for Stage {
    type V = StageView;

    closed spec fn view(&self) -> StageView {
        match *self {
            Stage::Submit => StageView::Submit,
            Stage::Settle => StageView::Settle,
            Stage::AwaitReady => StageView::AwaitReady,
            Stage::Fetch => StageView::Fetch,
            Stage::Done(Ok(body)) => StageView::Done(Ok(body@)),
            Stage::Done(Err(error)) => StageView::Done(Err(error)),
        }
    }
}

impl View for RoundTrip {
    type V = RoundTripView;

    closed spec fn view(&self) -> RoundTripView {
        RoundTripView {
            stage: self.stage@,
            command_id: self.command_id,
            frame: self.frame@,
            sequence: self.sequence,
            timeout_millis: self.timeout_millis,
        }
    }
}

/// Copies a byte vector.
fn copy_bytes(bytes: &Vec<u8>) -> (copy: Vec<u8>)
    ensures
        copy@ == bytes@,
{
    let mut copy: Vec<u8> = Vec::new();
    copy.extend_from_slice(bytes.as_slice());
    assert(copy@ =~= bytes@);
    copy
}

impl RoundTrip {
    /// The round trip of the request for the command `command_id` with the
    /// body `body`, numbered `sequence`, before anything was done.
    pub fn new(command_id: u32, sequence: u16, body: &[u8], timeout_millis: u64) -> (trip:
        RoundTrip)
        ensures
            trip@ == RoundTripView::start(command_id, sequence, body@, timeout_millis),
    {
        let frame = encode_request(command_id, sequence, body);
        RoundTrip { stage: Stage::Submit, command_id, frame, sequence, timeout_millis }
    }

    /// The identifier of the command that is requested.
    pub fn command_id(&self) -> (command_id: u32)
        ensures
            command_id == self@.command_id,
    {
        self.command_id
    }

    /// The sequence number of the request.
    pub fn sequence(&self) -> (sequence: u16)
        ensures
            sequence == self@.sequence,
    {
        self.sequence
    }

    /// The request frame.
    pub fn frame(&self) -> (frame: &Vec<u8>)
        ensures
            frame@ == self@.frame,
    {
        &self.frame
    }

    /// What the driver is to do now; `None` once the round trip is over.
    pub fn action(&self) -> (action: Option<Action>)
        ensures
            match action {
                Some(a) => self@.action() == Some(a@),
                None => self@.action().is_none(),
            },
    {
        match &self.stage {
            Stage::Submit => Some(
                Action::WriteControl(
                    control_write(
                        RequestType::Vendor,
                        REQUEST_SUBMIT,
                        0,
                        0,
                        copy_bytes(&self.frame),
                        self.timeout_millis,
                    ),
                ),
            ),
            Stage::Settle => Some(Action::Sleep { millis: SETTLE_MILLIS }),
            Stage::AwaitReady => Some(Action::ReadInterrupt(await_interrupt(READY_TIMEOUT_MILLIS))),
            Stage::Fetch => Some(
                Action::ReadControl(
                    control_read(
                        RequestType::Vendor,
                        REQUEST_FETCH,
                        0,
                        0,
                        REPLY_LENGTH,
                        self.timeout_millis,
                    ),
                ),
            ),
            Stage::Done(_) => None,
        }
    }

    /// Takes in how the pending action went and moves to the next stage. An
    /// event that does not answer the pending action changes nothing.
    pub fn handle(&mut self, event: Event)
        ensures
            final(self)@ == old(self)@.handle(event),
    {
        match &self.stage {
            Stage::Submit => match event {
                Event::ControlWritten(Ok(_)) => {
                    self.stage = Stage::Settle;
                },
                Event::ControlWritten(Err(error)) => {
                    self.stage = Stage::Done(Err(RequestError::Transport(error)));
                },
                _ => {},
            },
            Stage::Settle => match event {
                Event::Slept => {
                    self.stage = Stage::AwaitReady;
                },
                _ => {},
            },
            Stage::AwaitReady => match event {
                Event::Interrupt(_) => {
                    self.stage = Stage::Fetch;
                },
                _ => {},
            },
            Stage::Fetch => match event {
                Event::ControlRead(Ok(reply)) => {
                    let outcome = match decode_reply(reply.as_slice(), self.sequence) {
                        Ok(body) => Ok(body),
                        Err(error) => Err(RequestError::Desynchronized(error)),
                    };
                    self.stage = Stage::Done(outcome);
                },
                Event::ControlRead(Err(error)) => {
                    self.stage = Stage::Done(Err(RequestError::Transport(error)));
                },
                _ => {},
            },
            Stage::Done(_) => {},
        }
    }

    /// Whether the round trip is over.
    pub fn is_done(&self) -> (done: bool)
        ensures
            done == self@.outcome().is_some(),
    {
        match &self.stage {
            Stage::Done(_) => true,
            _ => false,
        }
    }

    /// Ends the round trip and hands out its result: the reply's body or the
    /// failure; `None` while the round trip is still under way.
    pub fn finish(self) -> (outcome: Option<Result<Vec<u8>, RequestError>>)
        ensures
            match outcome {
                Some(Ok(body)) => self@.outcome() == Some(Ok::<Seq<u8>, RequestError>(body@)),
                Some(Err(error)) => self@.outcome() == Some(Err::<Seq<u8>, RequestError>(error)),
                None => self@.outcome().is_none(),
            },
    {
        match self.stage {
            Stage::Done(result) => Some(result),
            _ => None,
        }
    }
}

/// A round trip is over exactly when nothing is left to do, and then no
/// event changes it any more. No event ever changes the command, the request
/// frame, its sequence number or the time limit.
pub proof fn lemma_handle_keeps_request(trip: RoundTripView, event: Event)
    ensures
        trip.outcome().is_some() <==> trip.action().is_none(),
        trip.outcome().is_some() ==> trip.handle(event) == trip,
        trip.handle(event).command_id == trip.command_id,
        trip.handle(event).frame == trip.frame,
        trip.handle(event).sequence == trip.sequence,
        trip.handle(event).timeout_millis == trip.timeout_millis,
{
}

/// The steps of a round trip, in their order: the frame is written by vendor
/// request 2, ten milliseconds pass, the readiness signal is waited for on
/// endpoint 0x81 for at most two seconds, and 1040 bytes are read by vendor
/// request 3. Whether the signal came makes no difference: the reply is
/// read in either case. The result is what the reply decodes to for the
/// request's sequence number.
pub proof fn lemma_round_trip(
    command_id: u32,
    sequence: u16,
    body: Seq<u8>,
    timeout_millis: u64,
    signalled: bool,
    reply: Vec<u8>,
)
    ensures
        ({
            let t0 = RoundTripView::start(command_id, sequence, body, timeout_millis);
            let t1 = t0.handle(Event::ControlWritten(Ok(())));
            let t2 = t1.handle(Event::Slept);
            let t3 = t2.handle(Event::Interrupt(signalled));
            let t4 = t3.handle(Event::ControlRead(Ok(reply)));
            &&& t0.action() == Some(
                ActionView::WriteControl(
                    ControlWriteView {
                        request_type: 0x41,
                        request: 2,
                        value: 0,
                        index: 0,
                        data: spec_encode(command_id, sequence, body),
                        timeout_millis,
                    },
                ),
            )
            &&& t1.action() == Some(ActionView::Sleep { millis: 10 })
            &&& t2.action() == Some(
                ActionView::ReadInterrupt(
                    InterruptRead {
                        endpoint: 0x81,
                        length: 6,
                        timeout_millis: 2000,
                    },
                ),
            )
            &&& t3.action() == Some(
                ActionView::ReadControl(
                    ControlRead {
                        request_type: 0xC1,
                        request: 3,
                        value: 0,
                        index: 0,
                        length: 1040,
                        timeout_millis,
                    },
                ),
            )
            &&& t0.outcome().is_none() && t1.outcome().is_none() && t2.outcome().is_none()
                && t3.outcome().is_none()
            &&& t4.action().is_none()
            &&& t4.outcome() == Some(spec_reply_outcome(reply@, sequence))
        }),
{
}

/// A transfer that fails ends the round trip with that failure: nothing is
/// tried again.
pub proof fn lemma_transport_failure(trip: RoundTripView, failure: UsbError)
    ensures
        trip.stage is Submit ==> trip.handle(Event::ControlWritten(Err(failure))).outcome() == Some(
            Err::<Seq<u8>, RequestError>(RequestError::Transport(failure)),
        ),
        trip.stage is Fetch ==> trip.handle(Event::ControlRead(Err(failure))).outcome() == Some(
            Err::<Seq<u8>, RequestError>(RequestError::Transport(failure)),
        ),
{
}

/// A reply is taken only if it is a whole frame that echoes the request's
/// sequence number: then the result is its body. Any other reply means that
/// the connection is out of step with the device, and says in which way.
pub proof fn lemma_reply_outcome(command_id: u32, echoed: u16, body: Seq<u8>, sequence: u16)
    requires
        body.len() <= 0xFFFF,
    ensures
        echoed == sequence ==> spec_reply_outcome(
            spec_encode(command_id, echoed, body),
            sequence,
        ) == Ok::<Seq<u8>, RequestError>(body),
        echoed != sequence ==> spec_reply_outcome(
            spec_encode(command_id, echoed, body),
            sequence,
        ) == Err::<Seq<u8>, RequestError>(
            RequestError::Desynchronized(FrameError::SequenceMismatch),
        ),
{
    lemma_decode_encode(command_id, echoed, body);
}

} // verus!
