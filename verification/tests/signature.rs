use tilt_ingest::signature::{
    is_tilt_advertisement, COLOR_OFFSET, FRAME_PREFIX, MIN_PAYLOAD_LEN, UUID_PREFIX, UUID_SUFFIX,
};

/// A payload as a device sends it: framing, identifier with the colour code,
/// temperature, gravity, transmit power.
fn payload(code: u8) -> Vec<u8> {
    let mut bytes: Vec<u8> = vec![0x02, 0x15, 0xA4, 0x95, 0xBB, code];
    bytes.extend_from_slice(&[
        0xC5, 0xB1, 0x4B, 0x44, 0xB5, 0x12, 0x13, 0x70, 0xF0, 0x2D, 0x74, 0xDE,
    ]);
    bytes.extend_from_slice(&[0x00, 0x45, 0x03, 0xE8, 0xC5]);
    bytes
}

#[test]
fn constants_spell_the_signature() {
    assert_eq!(MIN_PAYLOAD_LEN, 20);
    assert_eq!(COLOR_OFFSET, 5);
    assert_eq!(FRAME_PREFIX, [0x02, 0x15]);
    assert_eq!(UUID_PREFIX, [0xA4, 0x95, 0xBB]);
    assert_eq!(
        UUID_SUFFIX,
        [0xC5, 0xB1, 0x4B, 0x44, 0xB5, 0x12, 0x13, 0x70, 0xF0, 0x2D, 0x74, 0xDE]
    );
}

#[test]
fn a_device_payload_is_accepted() {
    assert_eq!(payload(0x10).len(), 23);
    assert!(is_tilt_advertisement(&payload(0x10)));
}

#[test]
fn every_prefix_shorter_than_twenty_is_rejected() {
    let full: Vec<u8> = payload(0x10);
    for len in 0usize..20 {
        assert!(!is_tilt_advertisement(&full[..len]), "length {len}");
    }
    assert!(!is_tilt_advertisement(&[]));
}

#[test]
fn twenty_bytes_are_enough() {
    let full: Vec<u8> = payload(0x10);
    assert!(!is_tilt_advertisement(&full[..19]));
    assert!(is_tilt_advertisement(&full[..20]));
    assert!(is_tilt_advertisement(&full[..21]));
    assert!(is_tilt_advertisement(&full[..22]));
}

#[test]
fn longer_payloads_are_accepted() {
    let mut bytes: Vec<u8> = payload(0x10);
    bytes.extend_from_slice(&[0u8; 40]);
    assert!(is_tilt_advertisement(&bytes));
}

#[test]
fn wrong_framing_is_rejected() {
    for first in 0u8..=255 {
        for second in [0x00u8, 0x02, 0x14, 0x15, 0x16, 0xFF] {
            let mut bytes: Vec<u8> = payload(0x10);
            bytes[0] = first;
            bytes[1] = second;
            let expected: bool = first == 0x02 && second == 0x15;
            assert_eq!(is_tilt_advertisement(&bytes), expected);
        }
    }
}

#[test]
fn any_colour_byte_is_accepted() {
    for code in 0u8..=255 {
        assert!(is_tilt_advertisement(&payload(code)), "code {code:#04x}");
    }
}

#[test]
fn changing_any_signature_byte_is_rejected() {
    let good: Vec<u8> = payload(0x40);
    for at in 0usize..18 {
        if at == COLOR_OFFSET {
            continue;
        }
        for bit in 0u32..8 {
            let mut bytes: Vec<u8> = good.clone();
            bytes[at] ^= 1u8 << bit;
            assert!(!is_tilt_advertisement(&bytes), "byte {at}, bit {bit}");
        }
        let mut bytes: Vec<u8> = good.clone();
        bytes[at] = bytes[at].wrapping_add(1);
        assert!(!is_tilt_advertisement(&bytes), "byte {at}");
    }
}

#[test]
fn bytes_after_the_identifier_are_free() {
    let good: Vec<u8> = payload(0x40);
    for at in 18usize..good.len() {
        for value in [0x00u8, 0x7F, 0xFF] {
            let mut bytes: Vec<u8> = good.clone();
            bytes[at] = value;
            assert!(is_tilt_advertisement(&bytes), "byte {at}");
        }
    }
}

#[test]
fn unrelated_apple_traffic_is_rejected() {
    // An iBeacon of another maker: same framing, another identifier.
    let other: [u8; 23] = [
        0x02, 0x15, 0xE2, 0xC5, 0x6D, 0xB5, 0xDF, 0xFB, 0x48, 0xD2, 0xB0, 0x60, 0xD0, 0xF5, 0xA7,
        0x10, 0x96, 0xE0, 0x00, 0x01, 0x00, 0x02, 0xC5,
    ];
    assert!(!is_tilt_advertisement(&other));
    // A short proximity message.
    assert!(!is_tilt_advertisement(&[0x10, 0x05, 0x0B, 0x1C, 0x6F, 0x4E, 0x02]));
    assert!(!is_tilt_advertisement(&[0u8; 23]));
}
