//! Decoding the device's six-byte data frame: big-endian two's complement,
//! register order X, Z, Y.

use compass::sample::{decode_axis, decode_sample, MagneticSample};

#[test]
fn axis_positive() {
    assert_eq!(decode_axis(0x00, 0x05), 5);
    assert_eq!(decode_axis(0x00, 0x64), 100);
    assert_eq!(decode_axis(0x01, 0x00), 256);
}

#[test]
fn axis_negative_twos_complement() {
    assert_eq!(decode_axis(0xFF, 0xFD), -3);
    assert_eq!(decode_axis(0xFF, 0xFF), -1);
}

#[test]
fn axis_extremes() {
    assert_eq!(decode_axis(0x80, 0x00), -32768);
    assert_eq!(decode_axis(0x7F, 0xFF), 32767);
    assert_eq!(decode_axis(0x00, 0x00), 0);
}

#[test]
fn frame_axes_in_device_order() {
    // The device emits X, then Z, then Y, each high byte first.
    let bytes: [u8; 6] = [0x00, 0x05, 0x00, 0x64, 0xFF, 0xFD];
    let s = decode_sample(&bytes);
    assert_eq!(s, MagneticSample { x: 5, y: -3, z: 100 });
}

#[test]
fn frame_all_zero() {
    let s = decode_sample(&[0x00; 6]);
    assert_eq!(s, MagneticSample { x: 0, y: 0, z: 0 });
}
