//! The client's side of the talk with the daemon: what an answer means.
//!
//! The client keeps the last device status that the daemon sent. The status
//! is the daemon's own affair: the client stores it and hands it out, and
//! reads nothing in it.

use vstd::prelude::*;

verus! {

/// The daemon's answer to a request, with `S` the daemon's device status.
#[derive(Debug, PartialEq, Eq)]
pub enum DaemonResponse<S> {
    /// The request was carried out; a new status comes along if there is
    /// one.
    Done(Option<S>),
    /// The request failed, for the reason given.
    Error(String),
}

/// What the client remembers between requests.
#[derive(Debug, PartialEq, Eq)]
pub struct Client<S> {
    device: S,
}

impl<S> View for Client<S> {
    type V = S;

    /// The device status that the client holds.
    closed spec fn view(&self) -> S {
        self.device
    }
}

impl<S> Client<S> {
    /// A client that holds `device` until the daemon sends a status.
    pub fn new(device: S) -> (client: Client<S>)
        ensures
            client@ == device,
    {
        Client { device }
    }

    /// Takes in the daemon's answer to a command. A status that comes with a
    /// success replaces the one held; a failure is handed on with the
    /// daemon's reason, and the status stays.
    pub fn receive(&mut self, response: DaemonResponse<S>) -> (result: Result<(), String>)
        ensures
            match response {
                DaemonResponse::Done(Some(device)) => result is Ok && final(self)@ == device,
                DaemonResponse::Done(None) => result is Ok && final(self)@ == old(self)@,
                DaemonResponse::Error(error) => result == Err::<(), String>(error) && final(self)@
                    == old(self)@,
            },
    {
        match response {
            DaemonResponse::Done(Some(device)) => {
                self.device = device;
                Ok(())
            },
            DaemonResponse::Done(None) => Ok(()),
            DaemonResponse::Error(error) => Err(error),
        }
    }

    /// The device status that the daemon sent last.
    pub fn device(&self) -> (device: &S)
        ensures
            *device == self@,
    {
        &self.device
    }
}

} // verus!
