use default_hal::error::HalError;
use default_hal::frame::{
    core_device_reset_cmd, message_type, payload_length, read_header, total_packet_length,
    DATA_MESSAGE_TYPE, MESSAGE_TYPE_MASK, UCI_HEADER_SIZE,
};

#[test]
fn message_type_is_the_top_three_bits() {
    assert_eq!(message_type(0x00), 0);
    assert_eq!(message_type(0x1f), 0);
    assert_eq!(message_type(0x20), 1);
    assert_eq!(message_type(0x40), 2);
    assert_eq!(message_type(0x60), 3);
    assert_eq!(message_type(0xe0), 7);
    assert_eq!(message_type(0xff), 7);
    assert_eq!(MESSAGE_TYPE_MASK, 0xe0);
    assert_eq!(DATA_MESSAGE_TYPE, 0);
    assert_eq!(UCI_HEADER_SIZE, 4);
}

#[test]
fn message_type_agrees_with_mask_and_shift_for_every_octet() {
    for octet in 0..=255u8 {
        assert_eq!(message_type(octet), (octet & 0b1110_0000) >> 5);
    }
}

#[test]
fn non_data_payload_length_is_the_last_header_octet() {
    assert_eq!(payload_length(&[0x40, 0x01, 0x00, 0x02]), 2);
    assert_eq!(payload_length(&[0x20, 0x00, 0x00, 0x01]), 1);
    assert_eq!(payload_length(&[0x60, 0x03, 0x00, 0x00]), 0);
    assert_eq!(payload_length(&[0x41, 0x00, 0x00, 0xff]), 255);
}

#[test]
fn non_data_payload_length_ignores_the_third_header_octet() {
    assert_eq!(payload_length(&[0x40, 0x01, 0x05, 0x00]), 0);
    assert_eq!(payload_length(&[0x20, 0x01, 0xff, 0x07]), 7);
    assert_eq!(payload_length(&[0xe0, 0x01, 0xff, 0xff]), 255);
}

#[test]
fn data_payload_length_is_little_endian_sixteen_bits() {
    assert_eq!(payload_length(&[0x00, 0x01, 0x05, 0x00]), 5);
    assert_eq!(payload_length(&[0x00, 0x01, 0x00, 0x01]), 256);
    assert_eq!(payload_length(&[0x01, 0x00, 0x34, 0x12]), 0x1234);
    assert_eq!(payload_length(&[0x1f, 0x00, 0xff, 0xff]), 65535);
    assert_eq!(payload_length(&[0x00, 0x00, 0x00, 0x00]), 0);
}

#[test]
fn payload_length_follows_the_rule_for_every_type_and_length() {
    for first in 0..=255u8 {
        for (low, high) in [(0u8, 0u8), (1, 0), (0, 1), (0x34, 0x12), (0xff, 0xff)] {
            let expected = if first >> 5 == 0 {
                u16::from_le_bytes([low, high]) as usize
            } else {
                high as usize
            };
            assert_eq!(payload_length(&[first, 0x00, low, high]), expected);
        }
    }
}

#[test]
fn total_packet_length_adds_the_header() {
    assert_eq!(total_packet_length(&[0x40, 0x01, 0x00, 0x02]), 6);
    assert_eq!(total_packet_length(&[0x00, 0x01, 0x05, 0x00]), 9);
    assert_eq!(total_packet_length(&[0x00, 0x00, 0xff, 0xff]), 65539);
    assert_eq!(total_packet_length(&[0x20, 0x00, 0x00, 0x00]), 4);
}

#[test]
fn read_header_takes_exactly_four_octets() {
    assert_eq!(read_header(&[0x40, 0x01, 0x00, 0x02]), Ok([0x40, 0x01, 0x00, 0x02]));
    assert_eq!(read_header(&[0x00, 0x01, 0x05, 0x00]), Ok([0x00, 0x01, 0x05, 0x00]));
}

#[test]
fn read_header_turns_down_other_lengths() {
    assert_eq!(read_header(&[]), Err(HalError::MalformedHeader));
    assert_eq!(read_header(&[0x40, 0x01, 0x00]), Err(HalError::MalformedHeader));
    assert_eq!(read_header(&[0x40, 0x01, 0x00, 0x02, 0xaa]), Err(HalError::MalformedHeader));
}

#[test]
fn reset_command_is_the_five_fixed_octets() {
    assert_eq!(core_device_reset_cmd(), vec![0x20, 0x00, 0x00, 0x01, 0x00]);
}

#[test]
fn reset_command_is_one_complete_packet() {
    let cmd = core_device_reset_cmd();
    let header = read_header(&cmd[0..4]).unwrap();
    assert_eq!(message_type(header[0]), 1);
    assert_eq!(total_packet_length(&header), cmd.len());
}
