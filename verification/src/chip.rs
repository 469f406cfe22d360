//! The chip controller: the service's operations as a state machine.
//!
//! A client's call needs work outside the controller: arming a death watch,
//! announcing an event, writing to the transport. The controller does none of
//! it. Each operation answers with the first [`Action`] of the call, and
//! [`UwbChip::resume`] turns the outcome of one action into the next, until
//! the action is the reply to the client. What the controller decides is laid
//! down by the transition functions of this module, over a [`ChipModel`].

use vstd::prelude::*;
use crate::error::HalError;
use crate::frame::{core_device_reset_cmd, device_reset_command};
use crate::protocol::{Action, ActionView, Answer, Outcome, UwbEvent, UwbStatus};
use crate::session::{ClientState, ServiceState};

verus! {

/// The call that is under way, and the outside work it is waiting for.
pub enum InFlight<C, D> {
    /// No call is under way.
    Idle,
    /// `open` waits for the death watch on the new client.
    OpenLinking {
        /// The handle of the client that is being bound.
        callbacks: C,
    },
    /// `open` waits for the client to take the announcement that it is open.
    OpenNotifying {
        /// The handle of the client that is being bound.
        callbacks: C,
        /// The token of the death watch on that client.
        death_recipient: D,
    },
    /// `close` waits for the reset command to be written.
    CloseWriting,
    /// `close` waits for the client to take the announcement that it is closed.
    CloseNotifying,
    /// `coreInit` waits for the client to take its announcement.
    CoreInitNotifying,
    /// `sendUciMessage` waits for the message to be written.
    Sending {
        /// The length of the message.
        count: usize,
    },
}

/// The controller as contracts see it.
pub struct ChipModel<C, D> {
    /// The client binding: `Closed` or `Opened`.
    pub client: ClientState<C, D>,
    /// The call under way.
    pub in_flight: InFlight<C, D>,
}

impl<C, D> ChipModel<C, D> {
    /// Whether a client is bound.
    pub open spec fn opened(self) -> bool {
        self.client is Opened
    }

    /// Whether no call is under way.
    pub open spec fn idle(self) -> bool {
        self.in_flight is Idle
    }

    /// What holds of every controller: `open` is under way only while no
    /// client is bound, and every other call only while one is.
    pub open spec fn wf(self) -> bool {
        match self.in_flight {
            InFlight::Idle => true,
            InFlight::OpenLinking { .. } | InFlight::OpenNotifying { .. } => !self.opened(),
            InFlight::CloseWriting
            | InFlight::CloseNotifying
            | InFlight::CoreInitNotifying
            | InFlight::Sending { .. } => self.opened(),
        }
    }

    /// This controller with no call under way.
    pub open spec fn settled(self) -> Self {
        ChipModel { client: self.client, in_flight: InFlight::Idle }
    }

    /// This controller with no client and no call under way.
    pub open spec fn cleared(self) -> Self {
        ChipModel { client: ClientState::Closed, in_flight: InFlight::Idle }
    }

    /// This controller waiting for outside work.
    pub open spec fn waiting(self, in_flight: InFlight<C, D>) -> Self {
        ChipModel { client: self.client, in_flight }
    }

    /// The client that the outstanding action concerns: the one being bound
    /// while `open` is under way, the bound one while an announcement is
    /// awaited, none otherwise.
    pub open spec fn target(self) -> Option<C> {
        match self.in_flight {
            InFlight::OpenLinking { callbacks } => Some(callbacks),
            InFlight::OpenNotifying { callbacks, .. } => Some(callbacks),
            InFlight::CloseNotifying | InFlight::CoreInitNotifying => match self.client {
                ClientState::Opened { callbacks, .. } => Some(callbacks),
                ClientState::Closed => None,
            },
            _ => None,
        }
    }
}

/// The reply that refuses a call.
pub open spec fn refusal(error: HalError) -> ActionView {
    ActionView::Reply(Err(error))
}

/// The reply to a call that succeeded.
pub open spec fn success(answer: Answer) -> ActionView {
    ActionView::Reply(Ok(answer))
}

/// `open`: valid only while no client is bound and no call is under way.
/// It starts by asking for a death watch on the new client.
pub open spec fn open_step<C, D>(s: ChipModel<C, D>, callbacks: C) -> (ChipModel<C, D>, ActionView) {
    if !s.idle() || s.opened() {
        (s, refusal(HalError::IllegalState))
    } else {
        (s.waiting(InFlight::OpenLinking { callbacks }), ActionView::LinkToDeath)
    }
}

/// `close`: valid only while a client is bound and no call is under way.
/// It starts by writing the reset command.
pub open spec fn close_step<C, D>(s: ChipModel<C, D>) -> (ChipModel<C, D>, ActionView) {
    if !s.idle() || !s.opened() {
        (s, refusal(HalError::IllegalState))
    } else {
        (s.waiting(InFlight::CloseWriting), ActionView::Write { bytes: device_reset_command() })
    }
}

/// `coreInit`: valid only while a client is bound and no call is under way.
/// It announces that initialisation is complete.
pub open spec fn core_init_step<C, D>(s: ChipModel<C, D>) -> (ChipModel<C, D>, ActionView) {
    if !s.idle() || !s.opened() {
        (s, refusal(HalError::IllegalState))
    } else {
        (
            s.waiting(InFlight::CoreInitNotifying),
            ActionView::NotifyEvent { event: UwbEvent::POST_INIT_CPLT, status: UwbStatus::OK },
        )
    }
}

/// `sendUciMessage`: valid only while a client is bound and no call is under
/// way. It writes the message as it stands.
pub open spec fn send_step<C, D>(s: ChipModel<C, D>, data: Seq<u8>) -> (ChipModel<C, D>, ActionView) {
    if !s.idle() || !s.opened() {
        (s, refusal(HalError::IllegalState))
    } else {
        (
            s.waiting(InFlight::Sending { count: data.len() as usize }),
            ActionView::Write { bytes: data },
        )
    }
}

/// What the call under way does once its outstanding action has ended with
/// `outcome`.
///
/// A failure ends the call. A failed write leaves the binding alone. A client
/// that cannot be reached is treated as dead: the one being bound is given
/// up, the bound one loses its binding. Only a token makes a death watch:
/// without one `open` fails as if the client were gone. A token that nobody
/// asked for counts as plain success. With no call under way there is
/// nothing to resume, which is illegal in that state.
pub open spec fn resume_step<C, D>(s: ChipModel<C, D>, outcome: Outcome<D>) -> (
    ChipModel<C, D>,
    ActionView,
) {
    match s.in_flight {
        InFlight::Idle => (s, refusal(HalError::IllegalState)),
        InFlight::OpenLinking { callbacks } => match outcome {
            Outcome::Linked(death_recipient) => (
                s.waiting(InFlight::OpenNotifying { callbacks, death_recipient }),
                ActionView::NotifyEvent { event: UwbEvent::OPEN_CPLT, status: UwbStatus::OK },
            ),
            _ => (s.settled(), refusal(HalError::RemoteGone)),
        },
        InFlight::OpenNotifying { callbacks, death_recipient } => if outcome is Failed {
            (s.settled(), refusal(HalError::RemoteGone))
        } else if s.opened() {
            (s.settled(), refusal(HalError::IllegalState))
        } else {
            (
                ChipModel {
                    client: ClientState::Opened { callbacks, death_recipient },
                    in_flight: InFlight::Idle,
                },
                success(Answer::Unit),
            )
        },
        InFlight::CloseWriting => if outcome is Failed {
            (s.settled(), refusal(HalError::TransportIo))
        } else {
            (
                s.waiting(InFlight::CloseNotifying),
                ActionView::NotifyEvent { event: UwbEvent::CLOSE_CPLT, status: UwbStatus::OK },
            )
        },
        InFlight::CloseNotifying => if outcome is Failed {
            (s.cleared(), refusal(HalError::RemoteGone))
        } else {
            (s.cleared(), success(Answer::Unit))
        },
        InFlight::CoreInitNotifying => if outcome is Failed {
            (s.cleared(), refusal(HalError::RemoteGone))
        } else {
            (s.settled(), success(Answer::Unit))
        },
        InFlight::Sending { count } => if outcome is Failed {
            (s.settled(), refusal(HalError::TransportIo))
        } else {
            (s.settled(), success(Answer::Count(count)))
        },
    }
}

/// The death of the client's process: whatever the controller was doing, the
/// binding is cleared and the call under way is given up.
pub open spec fn died_step<C, D>(s: ChipModel<C, D>) -> ChipModel<C, D> {
    s.cleared()
}

/// The controller of one chip.
///
/// `C` is the handle through which a client is reached, `D` the token of a
/// death watch, `W` the handle that writes to the transport. The controller
/// keeps them and hands them out; it never looks inside.
pub struct UwbChip<C, D, W> {
    name: String,
    service_state: ServiceState<C, D, W>,
    in_flight: InFlight<C, D>,
}

#[allow(non_snake_case)]
impl<C, D, W> UwbChip<C, D, W> {
    /// The controller's state.
    pub closed spec fn model(&self) -> ChipModel<C, D> {
        ChipModel { client: self.service_state.client(), in_flight: self.in_flight }
    }

    /// The chip's name.
    pub closed spec fn name(&self) -> Seq<char> {
        self.name@
    }

    /// The handle that writes to the transport.
    pub closed spec fn writer_handle(&self) -> W {
        self.service_state.writer_handle()
    }

    /// Whether `next` is this controller after a step that touched neither
    /// the name nor the writer.
    pub open spec fn keeps_identity(&self, next: &Self) -> bool {
        &&& next.name() == self.name()
        &&& next.writer_handle() == self.writer_handle()
    }

    /// Makes the controller of the chip called `name`, which writes to the
    /// transport through `writer`. No client is bound and no call is under way.
    pub fn new(name: String, writer: W) -> (chip: Self)
        ensures
            chip.name() == name@,
            chip.writer_handle() == writer,
            !chip.model().opened(),
            chip.model().idle(),
            chip.model().wf(),
    {
        UwbChip { name, service_state: ServiceState::new(writer), in_flight: InFlight::Idle }
    }

    /// The chip's name. It never changes.
    pub fn getName(&self) -> (name: String)
        ensures
            name@ == self.name(),
    {
        self.name.clone()
    }

    /// Starts a client's `open`, binding `callbacks` if the call succeeds.
    pub fn open(&mut self, callbacks: C) -> (action: Action)
        ensures
            (final(self).model(), action@) == open_step(old(self).model(), callbacks),
            old(self).keeps_identity(final(self)),
            old(self).model().wf() ==> final(self).model().wf(),
    {
        if !self.is_idle() || self.service_state.is_opened() {
            return Action::Reply(Err(HalError::IllegalState));
        }
        self.in_flight = InFlight::OpenLinking { callbacks };
        Action::LinkToDeath
    }

    /// Starts a client's `close`.
    pub fn close(&mut self) -> (action: Action)
        ensures
            (final(self).model(), action@) == close_step(old(self).model()),
            old(self).keeps_identity(final(self)),
            old(self).model().wf() ==> final(self).model().wf(),
    {
        if !self.is_idle() || !self.service_state.is_opened() {
            return Action::Reply(Err(HalError::IllegalState));
        }
        self.in_flight = InFlight::CloseWriting;
        Action::Write { bytes: core_device_reset_cmd() }
    }

    /// Starts a client's `coreInit`.
    pub fn coreInit(&mut self) -> (action: Action)
        ensures
            (final(self).model(), action@) == core_init_step(old(self).model()),
            old(self).keeps_identity(final(self)),
            old(self).model().wf() ==> final(self).model().wf(),
    {
        if !self.is_idle() || !self.service_state.is_opened() {
            return Action::Reply(Err(HalError::IllegalState));
        }
        self.in_flight = InFlight::CoreInitNotifying;
        Action::NotifyEvent { event: UwbEvent::POST_INIT_CPLT, status: UwbStatus::OK }
    }

    /// Accepts a session identifier. Sessions are kept by the device, not
    /// here: the call succeeds in every state and changes nothing.
    pub fn sessionInit(&self, id: i32) -> (r: Result<(), HalError>)
        ensures
            r is Ok,
    {
        let _ = id;
        Ok(())
    }

    /// The version of the vendor interface that this controller speaks.
    pub fn getSupportedAndroidUciVersion(&self) -> (version: i32)
        ensures
            version == 1,
    {
        1
    }

    /// Starts a client's `sendUciMessage` with the message `data`.
    pub fn sendUciMessage(&mut self, data: &[u8]) -> (action: Action)
        ensures
            (final(self).model(), action@) == send_step(old(self).model(), data@),
            old(self).keeps_identity(final(self)),
            old(self).model().wf() ==> final(self).model().wf(),
    {
        if !self.is_idle() || !self.service_state.is_opened() {
            return Action::Reply(Err(HalError::IllegalState));
        }
        self.in_flight = InFlight::Sending { count: data.len() };
        Action::Write { bytes: vstd::slice::slice_to_vec(data) }
    }

    /// Takes the outcome of the action that is outstanding and answers with
    /// the next action of the call under way.
    pub fn resume(&mut self, outcome: Outcome<D>) -> (action: Action)
        ensures
            (final(self).model(), action@) == resume_step(old(self).model(), outcome),
            old(self).keeps_identity(final(self)),
            old(self).model().wf() ==> final(self).model().wf(),
    {
        let mut in_flight = InFlight::Idle;
        core::mem::swap(&mut self.in_flight, &mut in_flight);
        match in_flight {
            InFlight::Idle => Action::Reply(Err(HalError::IllegalState)),
            InFlight::OpenLinking { callbacks } => match outcome {
                Outcome::Linked(death_recipient) => {
                    self.in_flight = InFlight::OpenNotifying { callbacks, death_recipient };
                    Action::NotifyEvent { event: UwbEvent::OPEN_CPLT, status: UwbStatus::OK }
                },
                _ => Action::Reply(Err(HalError::RemoteGone)),
            },
            InFlight::OpenNotifying { callbacks, death_recipient } => match outcome {
                Outcome::Failed => Action::Reply(Err(HalError::RemoteGone)),
                _ => match self.service_state.bind(callbacks, death_recipient) {
                    Ok(()) => Action::Reply(Ok(Answer::Unit)),
                    Err(error) => Action::Reply(Err(error)),
                },
            },
            InFlight::CloseWriting => match outcome {
                Outcome::Failed => Action::Reply(Err(HalError::TransportIo)),
                _ => {
                    self.in_flight = InFlight::CloseNotifying;
                    Action::NotifyEvent { event: UwbEvent::CLOSE_CPLT, status: UwbStatus::OK }
                },
            },
            InFlight::CloseNotifying => {
                self.service_state.unbind();
                match outcome {
                    Outcome::Failed => Action::Reply(Err(HalError::RemoteGone)),
                    _ => Action::Reply(Ok(Answer::Unit)),
                }
            },
            InFlight::CoreInitNotifying => match outcome {
                Outcome::Failed => {
                    self.service_state.unbind();
                    Action::Reply(Err(HalError::RemoteGone))
                },
                _ => Action::Reply(Ok(Answer::Unit)),
            },
            InFlight::Sending { count } => match outcome {
                Outcome::Failed => Action::Reply(Err(HalError::TransportIo)),
                _ => Action::Reply(Ok(Answer::Count(count))),
            },
        }
    }

    /// Takes note that the client's process has died.
    pub fn client_died(&mut self)
        ensures
            final(self).model() == died_step(old(self).model()),
            old(self).keeps_identity(final(self)),
            final(self).model().wf(),
    {
        self.in_flight = InFlight::Idle;
        self.service_state.unbind();
    }

    /// Tells whether a client is bound.
    pub fn is_opened(&self) -> (opened: bool)
        ensures
            opened == self.model().opened(),
    {
        self.service_state.is_opened()
    }

    /// Tells whether no call is under way.
    pub fn is_idle(&self) -> (idle: bool)
        ensures
            idle == self.model().idle(),
    {
        match &self.in_flight {
            InFlight::Idle => true,
            _ => false,
        }
    }

    /// The handle of the bound client: where a packet that arrives from the
    /// transport is delivered. A packet that arrives while this is `None` is
    /// dropped.
    pub fn current(&self) -> (callbacks: Option<&C>)
        ensures
            (match self.model().client {
                ClientState::Opened { callbacks: bound, .. } => callbacks == Some(&bound),
                ClientState::Closed => callbacks is None,
            }),
    {
        self.service_state.current()
    }

    /// The handle of the client that the outstanding action concerns.
    pub fn target(&self) -> (callbacks: Option<&C>)
        ensures
            (match self.model().target() {
                Some(target) => callbacks == Some(&target),
                None => callbacks is None,
            }),
    {
        match &self.in_flight {
            InFlight::OpenLinking { callbacks } => Some(callbacks),
            InFlight::OpenNotifying { callbacks, .. } => Some(callbacks),
            InFlight::CloseNotifying | InFlight::CoreInitNotifying => self.service_state.current(),
            _ => None,
        }
    }

    /// Lends the writer handle, so that the driver can write to the transport.
    pub fn writer(&mut self) -> (writer: &mut W)
        ensures
            *writer == old(self).writer_handle(),
            final(self).writer_handle() == *final(writer),
            final(self).model() == old(self).model(),
            final(self).name() == old(self).name(),
    {
        self.service_state.writer()
    }
}

} // verus!
