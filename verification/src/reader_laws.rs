//! What holds of the reader loop in every run.
//!
//! The loop is followed over a whole stream with [`packets_read`]: the
//! transport is a sequence of octets, and each read takes off its front
//! exactly as many octets as the reader asked for.

use vstd::prelude::*;
use crate::error::HalError;
use crate::frame::{is_packet, payload_len, UCI_HEADER_SIZE};
use crate::reader::{reader_step, ReaderActionView, ReaderEventView, ReaderModel};

verus! {

/// A reader between packets that is given a header and then the payload
/// which the header announces asks for exactly that payload and hands on
/// exactly the header followed by the payload, as one complete packet; it is
/// then between packets again.
pub proof fn law_reader_assembles_packet(header: Seq<u8>, payload: Seq<u8>)
    requires
        header.len() == UCI_HEADER_SIZE,
        payload.len() == payload_len(header),
    ensures
        ({
            let (inside, wanted) = reader_step(
                ReaderModel::AwaitHeader,
                ReaderEventView::Read(header),
            );
            &&& wanted == ReaderActionView::ReadExact(payload.len())
            &&& reader_step(inside, ReaderEventView::Read(payload)) == (
                ReaderModel::AwaitHeader,
                ReaderActionView::Dispatch(header + payload),
            )
            &&& is_packet(header + payload)
            &&& (header + payload).len() == UCI_HEADER_SIZE + payload.len()
        }),
{
    assert((header + payload).subrange(0, UCI_HEADER_SIZE as int) =~= header);
}

/// Whatever the reader hands on is one complete packet: a header and exactly
/// the payload that the header announces.
pub proof fn law_reader_dispatches_only_packets(s: ReaderModel, event: ReaderEventView)
    requires
        s.wf(),
    ensures
        reader_step(s, event).1 matches ReaderActionView::Dispatch(packet) ==> is_packet(packet),
        reader_step(s, event).1 is Dispatch ==> s is AwaitPayload && event is Read,
{
    if let ReaderModel::AwaitPayload { header } = s {
        if let ReaderEventView::Read(octets) = event {
            assert((header + octets).subrange(0, UCI_HEADER_SIZE as int) =~= header);
        }
    }
}

/// How a packet fared with the client never ends the loop and never moves
/// the reader: the answer is what the reader was waiting for anyway.
pub proof fn law_reader_survives_dispatch(s: ReaderModel, delivered: bool)
    ensures
        reader_step(s, ReaderEventView::Dispatched(delivered)) == (s, s.pending()),
        reader_step(s, ReaderEventView::Dispatched(delivered)) == reader_step(
            s,
            ReaderEventView::Dispatched(!delivered),
        ),
{
}

/// A read that fails ends the loop, and a loop that has ended stays ended
/// for the same reason, whatever it is told.
pub proof fn law_reader_stops_for_good(s: ReaderModel, error: HalError, event: ReaderEventView)
    ensures
        !(s is Stopped) ==> reader_step(s, ReaderEventView::ReadFailed) == (
            ReaderModel::Stopped { error: HalError::TransportIo },
            ReaderActionView::Stop(HalError::TransportIo),
        ),
        reader_step(ReaderModel::Stopped { error }, event) == (
            ReaderModel::Stopped { error },
            ReaderActionView::Stop(error),
        ),
{
}

/// Every step keeps the reader well formed.
pub proof fn law_reader_steps_keep_well_formed(s: ReaderModel, event: ReaderEventView)
    requires
        s.wf(),
    ensures
        reader_step(s, event).0.wf(),
{
}

/// How far the reader is into a packet: one inside, nought between packets
/// and after the end.
pub open spec fn depth(s: ReaderModel) -> nat {
    if s is AwaitPayload {
        1
    } else {
        0
    }
}

/// The packets that the loop hands on, in order, when it runs from the state
/// `s` over a transport that holds the octets `stream` and nothing more.
///
/// Each read takes exactly the octets asked for off the front of the stream.
/// A read that the stream cannot satisfy never returns, so the loop hands on
/// nothing further. The report on a packet is left out: it moves nothing.
pub open spec fn packets_read(s: ReaderModel, stream: Seq<u8>) -> Seq<Seq<u8>>
    decreases stream.len(), depth(s),
{
    match s.pending() {
        ReaderActionView::ReadExact(count) => if s.wf() && count <= stream.len() {
            let (next, action) = reader_step(s, ReaderEventView::Read(stream.take(count as int)));
            let rest = stream.skip(count as int);
            match action {
                ReaderActionView::Dispatch(packet) => seq![packet] + packets_read(next, rest),
                _ => packets_read(next, rest),
            }
        } else {
            Seq::empty()
        },
        _ => Seq::empty(),
    }
}

/// The octets of `packets`, one packet after the other.
pub open spec fn stream_of(packets: Seq<Seq<u8>>) -> Seq<u8>
    decreases packets.len(),
{
    if packets.len() == 0 {
        Seq::empty()
    } else {
        packets.first() + stream_of(packets.drop_first())
    }
}

/// A stream that starts with one complete packet: the loop hands on that
/// packet, and goes on with the rest of the stream as if it had just begun.
pub proof fn law_reader_cuts_first_packet(packet: Seq<u8>, rest: Seq<u8>)
    requires
        is_packet(packet),
    ensures
        packets_read(ReaderModel::AwaitHeader, packet + rest) == seq![packet] + packets_read(
            ReaderModel::AwaitHeader,
            rest,
        ),
{
    let stream = packet + rest;
    let size = UCI_HEADER_SIZE as int;
    let header = packet.subrange(0, size);
    let payload = packet.skip(size);
    assert(stream.take(size) =~= header);
    let inside = ReaderModel::AwaitPayload { header };
    assert(reader_step(ReaderModel::AwaitHeader, ReaderEventView::Read(header)).0 == inside);
    let after_header = stream.skip(size);
    assert(packets_read(ReaderModel::AwaitHeader, stream) == packets_read(inside, after_header));
    let count = payload_len(header) as int;
    assert(count == packet.len() - size);
    assert(after_header.take(count) =~= payload);
    assert(after_header.skip(count) =~= rest);
    assert(header + payload =~= packet);
    assert(reader_step(inside, ReaderEventView::Read(payload)) == (
        ReaderModel::AwaitHeader,
        ReaderActionView::Dispatch(packet),
    ));
}

/// A stream that is made of complete packets, one after the other, is cut
/// into exactly those packets, in order, however long or short each is and
/// whatever kind it is of. What follows the last of them is read as a stream
/// of its own.
pub proof fn law_reader_cuts_stream(packets: Seq<Seq<u8>>, rest: Seq<u8>)
    requires
        forall|i: int| 0 <= i < packets.len() ==> is_packet(#[trigger] packets[i]),
    ensures
        packets_read(ReaderModel::AwaitHeader, stream_of(packets) + rest) == packets
            + packets_read(ReaderModel::AwaitHeader, rest),
    decreases packets.len(),
{
    if packets.len() == 0 {
        assert(stream_of(packets) + rest =~= rest);
        assert(packets + packets_read(ReaderModel::AwaitHeader, rest) =~= packets_read(
            ReaderModel::AwaitHeader,
            rest,
        ));
    } else {
        let first = packets.first();
        let others = packets.drop_first();
        assert(is_packet(packets[0]));
        assert forall|i: int| 0 <= i < others.len() implies is_packet(#[trigger] others[i]) by {
            assert(others[i] == packets[i + 1]);
        }
        law_reader_cuts_stream(others, rest);
        law_reader_cuts_first_packet(first, stream_of(others) + rest);
        assert(stream_of(packets) + rest =~= first + (stream_of(others) + rest));
        assert(packets =~= seq![first] + others);
        assert(seq![first] + (others + packets_read(ReaderModel::AwaitHeader, rest)) =~= packets
            + packets_read(ReaderModel::AwaitHeader, rest));
    }
}

/// A stream that ends inside a header or inside a payload yields no packet
/// from that unfinished part: the loop waits.
pub proof fn law_reader_waits_for_whole_packet(packet: Seq<u8>, cut: int)
    requires
        is_packet(packet),
        0 <= cut < packet.len(),
    ensures
        packets_read(ReaderModel::AwaitHeader, packet.take(cut)) == Seq::<Seq<u8>>::empty(),
{
    let stream = packet.take(cut);
    let size = UCI_HEADER_SIZE as int;
    if cut >= size {
        let header = packet.subrange(0, size);
        assert(stream.take(size) =~= header);
        let inside = ReaderModel::AwaitPayload { header };
        assert(packets_read(ReaderModel::AwaitHeader, stream) == packets_read(
            inside,
            stream.skip(size),
        ));
        assert(stream.skip(size).len() < payload_len(header));
    }
}

} // verus!
