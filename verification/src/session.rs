//! The session record: who the current client is, and the transport writer.

use vstd::prelude::*;
use crate::error::HalError;

verus! {

/// The client that the service is bound to, if any.
///
/// The callback handle and the death-watch token live in one variant, so a
/// binding never has one without the other.
pub enum ClientState<C, D> {
    /// No client is bound.
    Closed,
    /// A client is bound.
    Opened {
        /// The handle through which packets and lifecycle events reach the client.
        callbacks: C,
        /// The token of the death watch registered on the client's process.
        death_recipient: D,
    },
}

/// The record that the controller and the packet reader share: the client
/// binding and the handle that writes to the transport.
pub struct ServiceState<C, D, W> {
    client_state: ClientState<C, D>,
    writer: W,
}

impl<C, D, W> ServiceState<C, D, W> {
    /// The client binding.
    pub closed spec fn client(&self) -> ClientState<C, D> {
        self.client_state
    }

    /// The writer handle.
    pub closed spec fn writer_handle(&self) -> W {
        self.writer
    }

    /// Makes the record of a service that no client has opened yet.
    pub fn new(writer: W) -> (state: Self)
        ensures
            state.client() is Closed,
            state.writer_handle() == writer,
    {
        ServiceState { client_state: ClientState::Closed, writer }
    }

    /// Tells whether a client is bound.
    pub fn is_opened(&self) -> (opened: bool)
        ensures
            opened == (self.client() is Opened),
    {
        match &self.client_state {
            ClientState::Opened { .. } => true,
            ClientState::Closed => false,
        }
    }

    /// Binds a client. A binding that exists is never replaced: the attempt
    /// fails and leaves the record as it was.
    pub fn bind(&mut self, callbacks: C, death_recipient: D) -> (r: Result<(), HalError>)
        ensures
            final(self).writer_handle() == old(self).writer_handle(),
            old(self).client() is Closed ==> r is Ok && final(self).client() == (
                ClientState::Opened { callbacks, death_recipient }
            ),
            old(self).client() is Opened ==> r == Err::<(), HalError>(HalError::IllegalState)
                && final(self).client() == old(self).client(),
    {
        if self.is_opened() {
            return Err(HalError::IllegalState);
        }
        self.client_state = ClientState::Opened { callbacks, death_recipient };
        Ok(())
    }

    /// Clears the binding, dropping the callback handle and the death-watch
    /// token together. Clearing an empty binding changes nothing.
    pub fn unbind(&mut self)
        ensures
            final(self).client() is Closed,
            final(self).writer_handle() == old(self).writer_handle(),
    {
        self.client_state = ClientState::Closed;
    }

    /// The callback handle of the bound client, if there is one.
    pub fn current(&self) -> (callbacks: Option<&C>)
        ensures
            (match self.client() {
                ClientState::Opened { callbacks: bound, .. } => callbacks == Some(&bound),
                ClientState::Closed => callbacks is None,
            }),
    {
        match &self.client_state {
            ClientState::Opened { callbacks, .. } => Some(callbacks),
            ClientState::Closed => None,
        }
    }

    /// Lends the writer handle, so that the caller can write to the transport.
    pub fn writer(&mut self) -> (writer: &mut W)
        ensures
            *writer == old(self).writer_handle(),
            final(self).writer_handle() == *final(writer),
            final(self).client() == old(self).client(),
    {
        &mut self.writer
    }
}

} // verus!
