//! Tests for the frame codec and the channel selectors.

use mcp3008::decode_reply;
use mcp3008::encode_command;
use mcp3008::Channels4;
use mcp3008::Channels8;

#[test]
fn channel8_codes_are_ordinals() {
    let channels = [
        Channels8::CH0,
        Channels8::CH1,
        Channels8::CH2,
        Channels8::CH3,
        Channels8::CH4,
        Channels8::CH5,
        Channels8::CH6,
        Channels8::CH7,
    ];
    for (i, ch) in channels.iter().enumerate() {
        assert_eq!(ch.code(), i as u8);
    }
}

#[test]
fn channel4_codes_are_ordinals() {
    let channels = [
        Channels4::CH0,
        Channels4::CH1,
        Channels4::CH2,
        Channels4::CH3,
    ];
    for (i, ch) in channels.iter().enumerate() {
        assert_eq!(ch.code(), i as u8);
    }
}

#[test]
fn encode_channel0_of_mcp3008() {
    assert_eq!(encode_command(Channels8::CH0.code()), [0x01, 0x80, 0x00]);
}

#[test]
fn encode_channel7_of_mcp3008() {
    assert_eq!(encode_command(Channels8::CH7.code()), [0x01, 0xF0, 0x00]);
}

#[test]
fn encode_channel3_of_mcp3004() {
    assert_eq!(encode_command(Channels4::CH3.code()), [0x01, 0xB0, 0x00]);
}

#[test]
fn encode_frame_shape_for_every_code() {
    for code in 0u8..8 {
        let frame = encode_command(code);
        assert_eq!(frame[0], 0x01);
        assert_eq!(frame[1], (0x08 | code) << 4);
        assert_eq!(frame[2], 0x00);
    }
}

#[test]
fn decode_known_reply() {
    assert_eq!(decode_reply([0x00, 0x02, 0xFF]), 767);
}

#[test]
fn decode_stays_in_ten_bits() {
    assert_eq!(decode_reply([0x00, 0x00, 0x00]), 0);
    assert_eq!(decode_reply([0xFF, 0xFF, 0xFF]), 1023);
    assert_eq!(decode_reply([0xAB, 0x03, 0xFF]), 1023);
    for b1 in [0x00u8, 0x01, 0x5A, 0xFF] {
        for b2 in [0x00u8, 0x7F, 0xFF] {
            assert!(decode_reply([0x42, b1, b2]) <= 1023);
        }
    }
}

#[test]
fn decode_ignores_high_bits_of_byte1() {
    for b1 in [0x00u8, 0x01, 0x02, 0x03] {
        for b2 in [0x00u8, 0x34, 0xFF] {
            let masked = decode_reply([0x00, b1, b2]);
            let noisy = decode_reply([0x77, b1 | 0b1111_1100, b2]);
            assert_eq!(noisy, masked);
        }
    }
}

#[test]
fn decode_round_trips_confined_data_bytes() {
    for hi in 0u8..4 {
        for lo in [0x00u8, 0x01, 0x80, 0xFF] {
            let expected = ((hi as u16) << 8) | (lo as u16);
            assert_eq!(decode_reply([0x00, hi, lo]), expected);
        }
    }
}
