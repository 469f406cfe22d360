//! The packet framing of the transport.
//!
//! A packet is a header of four octets followed by a payload. The stream
//! carries no delimiters: the header alone says how long the payload is, and
//! how it says so depends on the message type in the top three bits of the
//! first octet.

use vstd::prelude::*;
use crate::error::HalError;

verus! {

/// The bits of the first header octet that hold the message type.
pub const MESSAGE_TYPE_MASK: u8 = 0b1110_0000;

/// How far the masked message type is shifted down.
pub const MESSAGE_TYPE_SHIFT: u8 = 5;

/// The message type of data packets.
pub const DATA_MESSAGE_TYPE: u8 = 0b000;

/// The length of every packet header.
pub const UCI_HEADER_SIZE: usize = 4;

/// The message type carried by the first octet of a header: its bits 5 to 7.
pub open spec fn message_type_of(octet: u8) -> int {
    octet as int / 32
}

/// Whether a header announces a data packet.
pub open spec fn is_data_header(header: Seq<u8>) -> bool {
    message_type_of(header[0]) == DATA_MESSAGE_TYPE as int
}

/// The number of payload octets that follow `header`.
///
/// A data packet spends the last two header octets on a little-endian length;
/// every other packet spends only the last one.
pub open spec fn payload_len(header: Seq<u8>) -> nat
    recommends
        header.len() == UCI_HEADER_SIZE,
{
    if is_data_header(header) {
        (header[2] as nat) + 256 * (header[3] as nat)
    } else {
        header[3] as nat
    }
}

/// The length of the whole packet that `header` starts.
pub open spec fn packet_len(header: Seq<u8>) -> nat
    recommends
        header.len() == UCI_HEADER_SIZE,
{
    UCI_HEADER_SIZE as nat + payload_len(header)
}

/// Whether `packet` is one complete packet: a header and exactly the payload
/// that the header announces.
pub open spec fn is_packet(packet: Seq<u8>) -> bool {
    &&& packet.len() >= UCI_HEADER_SIZE
    &&& packet.len() == packet_len(packet.subrange(0, UCI_HEADER_SIZE as int))
}

/// The one control packet that the service sends of its own accord: the
/// command that resets the device.
pub open spec fn device_reset_command() -> Seq<u8> {
    seq![0x20u8, 0x00u8, 0x00u8, 0x01u8, 0x00u8]
}

/// Masking and shifting the first octet yields its top three bits.
pub proof fn lemma_message_type_bits(octet: u8)
    ensures
        ((octet & MESSAGE_TYPE_MASK) >> MESSAGE_TYPE_SHIFT) as int == message_type_of(octet),
        0 <= message_type_of(octet) < 8,
{
    assert(((octet & 0b1110_0000u8) >> 5u8) == octet / 32) by (bit_vector);
}

/// Extracts the message type from the first octet of a header.
pub fn message_type(octet: u8) -> (mt: u8)
    ensures
        mt as int == message_type_of(octet),
        mt < 8,
{
    proof {
        lemma_message_type_bits(octet);
    }
    (octet & MESSAGE_TYPE_MASK) >> MESSAGE_TYPE_SHIFT
}

/// Computes how many payload octets must be read after `header`.
pub fn payload_length(header: &[u8; 4]) -> (n: usize)
    ensures
        n == payload_len(header@),
        !is_data_header(header@) ==> n == header@[3] && n <= 255,
        is_data_header(header@) ==> n == header@[2] + 256 * header@[3] && n <= 65535,
{
    let mt = message_type(header[0]);
    if mt == DATA_MESSAGE_TYPE {
        let low: usize = header[2] as usize;
        let high: usize = header[3] as usize;
        low + 256 * high
    } else {
        header[3] as usize
    }
}

/// Computes the length of the whole packet that `header` starts.
pub fn total_packet_length(header: &[u8; 4]) -> (n: usize)
    ensures
        n == packet_len(header@),
        UCI_HEADER_SIZE <= n <= UCI_HEADER_SIZE + 65535,
{
    payload_length(header) + UCI_HEADER_SIZE
}

/// Builds the command that resets the device, which stops whatever the
/// device is doing.
pub fn core_device_reset_cmd() -> (cmd: Vec<u8>)
    ensures
        cmd@ == device_reset_command(),
{
    let cmd: Vec<u8> = vec![0x20u8, 0x00u8, 0x00u8, 0x01u8, 0x00u8];
    assert(cmd@ =~= device_reset_command());
    cmd
}

/// The reset command is itself one complete packet: a command header that
/// announces one payload octet, and that octet.
pub proof fn lemma_reset_command_is_packet()
    ensures
        is_packet(device_reset_command()),
        !is_data_header(device_reset_command()),
        device_reset_command().len() == 5,
{
    let header = device_reset_command().subrange(0, UCI_HEADER_SIZE as int);
    assert(header[0] == 0x20u8);
    assert(header[3] == 0x01u8);
}

/// Takes `octets` as a packet header.
///
/// What the header says is trusted as it stands; only octets that are not
/// four in number are turned down.
pub fn read_header(octets: &[u8]) -> (r: Result<[u8; 4], HalError>)
    ensures
        octets@.len() == UCI_HEADER_SIZE ==> r is Ok && r->Ok_0@ == octets@,
        octets@.len() != UCI_HEADER_SIZE ==> r == Err::<[u8; 4], HalError>(
            HalError::MalformedHeader,
        ),
{
    if octets.len() != UCI_HEADER_SIZE {
        return Err(HalError::MalformedHeader);
    }
    let header: [u8; 4] = [octets[0], octets[1], octets[2], octets[3]];
    assert(header@ =~= octets@);
    Ok(header)
}

} // verus!
