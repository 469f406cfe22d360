//! What the controller asks its driver to do, and what the driver reports back.
//!
//! The controller never touches the transport or a client itself. A call
//! starts with one [`Action`]; the driver performs it, reports the
//! [`Outcome`], and receives the next action, until the action is a reply.

use vstd::prelude::*;
use crate::error::HalError;

verus! {

/// A lifecycle event that is announced to the client, under the name that
/// the client interface gives it.
#[allow(non_camel_case_types)]
#[derive(Clone, Copy, Debug, PartialEq, Eq, Structural)]
pub enum UwbEvent {
    /// The service has been opened for the client.
    OPEN_CPLT,
    /// The service has been closed.
    CLOSE_CPLT,
    /// The chip's core has been initialised.
    POST_INIT_CPLT,
}

/// The status that accompanies a lifecycle event.
#[derive(Clone, Copy, Debug, PartialEq, Eq, Structural)]
pub enum UwbStatus {
    /// All is well. This controller announces nothing else.
    OK,
}

/// What a call that succeeded hands back to the client.
#[derive(Clone, Copy, Debug, PartialEq, Eq, Structural)]
pub enum Answer {
    /// The call carries no value.
    Unit,
    /// The number of octets that were written to the transport.
    Count(usize),
}

/// The next thing the driver has to do.
#[derive(Debug, PartialEq, Eq)]
pub enum Action {
    /// Register a one-shot death watch on the process of the client that is
    /// being bound, and report the watch's token.
    LinkToDeath,
    /// Announce a lifecycle event to the client.
    NotifyEvent {
        /// The event.
        event: UwbEvent,
        /// The status to announce it with.
        status: UwbStatus,
    },
    /// Write all of these octets to the transport.
    Write {
        /// The octets, in order.
        bytes: Vec<u8>,
    },
    /// The call is over: hand this result to the client.
    Reply(Result<Answer, HalError>),
}

/// An [`Action`] as contracts see it.
pub enum ActionView {
    /// See [`Action::LinkToDeath`].
    LinkToDeath,
    /// See [`Action::NotifyEvent`].
    NotifyEvent {
        /// The event.
        event: UwbEvent,
        /// The status to announce it with.
        status: UwbStatus,
    },
    /// See [`Action::Write`].
    Write {
        /// The octets, in order.
        bytes: Seq<u8>,
    },
    /// See [`Action::Reply`].
    Reply(Result<Answer, HalError>),
}

impl View for Action {
    type V = ActionView;

    open spec fn view(&self) -> ActionView {
        match *self {
            Action::LinkToDeath => ActionView::LinkToDeath,
            Action::NotifyEvent { event, status } => ActionView::NotifyEvent { event, status },
            Action::Write { bytes } => ActionView::Write { bytes: bytes@ },
            Action::Reply(result) => ActionView::Reply(result),
        }
    }
}

/// How the outside work that an [`Action`] asked for ended.
#[derive(Debug)]
pub enum Outcome<D> {
    /// The death watch is registered; this is its token.
    Linked(D),
    /// The work was done.
    Done,
    /// The work failed.
    Failed,
}

} // verus!
