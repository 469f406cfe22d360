//! The reader loop: cutting the transport's octet stream into packets.
//!
//! The loop asks for exactly four header octets, works out from them how long
//! the payload is, asks for exactly that many octets, and hands the whole
//! packet on. It cannot find its place in the stream again once it has lost
//! it, so a read that fails ends the loop for good.

use vstd::prelude::*;
use crate::error::HalError;
use crate::frame::{payload_len, payload_length, read_header, UCI_HEADER_SIZE};

verus! {

/// What the reader asks its driver to do next.
#[derive(Debug, PartialEq, Eq)]
pub enum ReaderAction {
    /// Read exactly this many octets from the transport, waiting for them as
    /// long as it takes.
    ReadExact(usize),
    /// Hand this packet to the client that is bound now; drop it if none is.
    Dispatch(Vec<u8>),
    /// The loop has ended, for this reason.
    Stop(HalError),
}

/// What the driver reports to the reader.
#[derive(Debug, PartialEq, Eq)]
pub enum ReaderEvent {
    /// The read delivered these octets.
    Read(Vec<u8>),
    /// The read failed: the transport is closed or broken.
    ReadFailed,
    /// The packet has been dealt with. `true` if it reached a client or was
    /// dropped for want of one, `false` if the client could not take it.
    Dispatched(bool),
}

/// A [`ReaderAction`] as contracts see it.
pub enum ReaderActionView {
    /// See [`ReaderAction::ReadExact`].
    ReadExact(nat),
    /// See [`ReaderAction::Dispatch`].
    Dispatch(Seq<u8>),
    /// See [`ReaderAction::Stop`].
    Stop(HalError),
}

/// A [`ReaderEvent`] as contracts see it.
pub enum ReaderEventView {
    /// See [`ReaderEvent::Read`].
    Read(Seq<u8>),
    /// See [`ReaderEvent::ReadFailed`].
    ReadFailed,
    /// See [`ReaderEvent::Dispatched`].
    Dispatched(bool),
}

impl View for ReaderAction {
    type V = ReaderActionView;

    open spec fn view(&self) -> ReaderActionView {
        match *self {
            ReaderAction::ReadExact(count) => ReaderActionView::ReadExact(count as nat),
            ReaderAction::Dispatch(packet) => ReaderActionView::Dispatch(packet@),
            ReaderAction::Stop(error) => ReaderActionView::Stop(error),
        }
    }
}

impl View for ReaderEvent {
    type V = ReaderEventView;

    open spec fn view(&self) -> ReaderEventView {
        match *self {
            ReaderEvent::Read(octets) => ReaderEventView::Read(octets@),
            ReaderEvent::ReadFailed => ReaderEventView::ReadFailed,
            ReaderEvent::Dispatched(delivered) => ReaderEventView::Dispatched(delivered),
        }
    }
}

/// Where the reader is in the stream, as contracts see it.
pub enum ReaderModel {
    /// Between packets: the next four octets are a header.
    AwaitHeader,
    /// Inside a packet: this header has been read, its payload has not.
    AwaitPayload {
        /// The header of the packet.
        header: Seq<u8>,
    },
    /// The loop has ended and stays so.
    Stopped {
        /// Why it ended.
        error: HalError,
    },
}

impl ReaderModel {
    /// What holds of every reader: a header that is kept is four octets long.
    pub open spec fn wf(self) -> bool {
        self matches ReaderModel::AwaitPayload { header } ==> header.len() == UCI_HEADER_SIZE
    }

    /// The request that is outstanding in this state.
    pub open spec fn pending(self) -> ReaderActionView {
        match self {
            ReaderModel::AwaitHeader => ReaderActionView::ReadExact(UCI_HEADER_SIZE as nat),
            ReaderModel::AwaitPayload { header } => ReaderActionView::ReadExact(payload_len(header)),
            ReaderModel::Stopped { error } => ReaderActionView::Stop(error),
        }
    }
}

/// The reader that has ended for the reason `error`, and says so.
pub open spec fn stopped(error: HalError) -> (ReaderModel, ReaderActionView) {
    (ReaderModel::Stopped { error }, ReaderActionView::Stop(error))
}

/// One turn of the reader loop.
///
/// Octets that are not as many as were asked for are a failed read, and so
/// the end of the loop. How a packet fared with the client is of no
/// consequence: the loop goes on with what it was waiting for.
pub open spec fn reader_step(s: ReaderModel, event: ReaderEventView) -> (
    ReaderModel,
    ReaderActionView,
) {
    match s {
        ReaderModel::Stopped { error } => (s, ReaderActionView::Stop(error)),
        ReaderModel::AwaitHeader => match event {
            ReaderEventView::Read(octets) => if octets.len() == UCI_HEADER_SIZE {
                (
                    ReaderModel::AwaitPayload { header: octets },
                    ReaderActionView::ReadExact(payload_len(octets)),
                )
            } else {
                stopped(HalError::MalformedHeader)
            },
            ReaderEventView::ReadFailed => stopped(HalError::TransportIo),
            ReaderEventView::Dispatched(_) => (s, s.pending()),
        },
        ReaderModel::AwaitPayload { header } => match event {
            ReaderEventView::Read(octets) => if octets.len() == payload_len(header) {
                (ReaderModel::AwaitHeader, ReaderActionView::Dispatch(header + octets))
            } else {
                stopped(HalError::TransportIo)
            },
            ReaderEventView::ReadFailed => stopped(HalError::TransportIo),
            ReaderEventView::Dispatched(_) => (s, s.pending()),
        },
    }
}

/// Where the reader is in the stream.
enum ReaderState {
    AwaitHeader,
    AwaitPayload { header: [u8; 4] },
    Stopped { error: HalError },
}

/// The reader loop's state.
pub struct PacketReader {
    state: ReaderState,
}

impl PacketReader {
    /// Where the reader is in the stream.
    pub closed spec fn model(&self) -> ReaderModel {
        match self.state {
            ReaderState::AwaitHeader => ReaderModel::AwaitHeader,
            ReaderState::AwaitPayload { header } => ReaderModel::AwaitPayload { header: header@ },
            ReaderState::Stopped { error } => ReaderModel::Stopped { error },
        }
    }

    /// Makes a reader that stands at the start of the stream.
    pub fn new() -> (reader: Self)
        ensures
            reader.model() == ReaderModel::AwaitHeader,
    {
        PacketReader { state: ReaderState::AwaitHeader }
    }

    /// The request that is outstanding: how many octets to read next, or that
    /// the loop has ended. This is how the loop starts.
    pub fn pending(&self) -> (action: ReaderAction)
        ensures
            action@ == self.model().pending(),
            self.model().wf(),
    {
        match &self.state {
            ReaderState::AwaitHeader => ReaderAction::ReadExact(UCI_HEADER_SIZE),
            ReaderState::AwaitPayload { header } => ReaderAction::ReadExact(payload_length(header)),
            ReaderState::Stopped { error } => ReaderAction::Stop(*error),
        }
    }

    /// Takes what the driver reports and answers with what to do next.
    pub fn step(&mut self, event: ReaderEvent) -> (action: ReaderAction)
        ensures
            (final(self).model(), action@) == reader_step(old(self).model(), event@),
            final(self).model().wf(),
    {
        match event {
            ReaderEvent::Read(octets) => self.take(octets),
            ReaderEvent::ReadFailed => match &self.state {
                ReaderState::Stopped { error } => ReaderAction::Stop(*error),
                _ => self.stop(HalError::TransportIo),
            },
            ReaderEvent::Dispatched(_) => self.pending(),
        }
    }

    /// Takes the octets that a read delivered.
    fn take(&mut self, octets: Vec<u8>) -> (action: ReaderAction)
        ensures
            (final(self).model(), action@) == reader_step(
                old(self).model(),
                ReaderEventView::Read(octets@),
            ),
            final(self).model().wf(),
    {
        match &self.state {
            ReaderState::Stopped { error } => ReaderAction::Stop(*error),
            ReaderState::AwaitHeader => match read_header(octets.as_slice()) {
                Ok(header) => {
                    let count = payload_length(&header);
                    self.state = ReaderState::AwaitPayload { header };
                    ReaderAction::ReadExact(count)
                },
                Err(error) => self.stop(error),
            },
            ReaderState::AwaitPayload { header } => if octets.len() == payload_length(header) {
                let mut packet: Vec<u8> = vec![header[0], header[1], header[2], header[3]];
                let mut payload = octets;
                assert(packet@ =~= header@);
                packet.append(&mut payload);
                self.state = ReaderState::AwaitHeader;
                ReaderAction::Dispatch(packet)
            } else {
                self.stop(HalError::TransportIo)
            },
        }
    }

    /// Ends the loop.
    fn stop(&mut self, error: HalError) -> (action: ReaderAction)
        ensures
            (final(self).model(), action@) == stopped(error),
    {
        self.state = ReaderState::Stopped { error };
        ReaderAction::Stop(error)
    }
}

} // verus!
