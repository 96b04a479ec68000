//! One magnetometer reading, and the decoding of the sensor's data frame.
//!
//! The device answers a data-register read with six bytes: for each axis a
//! high byte then a low byte (big-endian), two's-complement signed, in the
//! device's fixed register order X, Z, Y.

use vstd::prelude::*;

verus! {

/// One immutable three-axis magnetometer reading: signed 16-bit field
/// strength along each of the device's three orthogonal axes.
#[derive(Clone, Copy, PartialEq, Eq, Structural, Debug)]
pub struct MagneticSample {
    pub x: i16,
    pub y: i16,
    pub z: i16,
}

/// The signed 16-bit value encoded big-endian, two's complement, by the byte
/// pair `(hi, lo)`.
pub open spec fn axis_value(hi: u8, lo: u8) -> int {
    if hi < 128 {
        hi * 256 + lo
    } else {
        hi * 256 + lo - 65536
    }
}

/// The reading held in a six-byte data frame, axes in the device's register
/// order X, Z, Y, each axis big-endian two's complement.
pub open spec fn decoded_sample(bytes: Seq<u8>) -> MagneticSample
    recommends
        bytes.len() == 6,
{
    MagneticSample {
        x: axis_value(bytes[0], bytes[1]) as i16,
        z: axis_value(bytes[2], bytes[3]) as i16,
        y: axis_value(bytes[4], bytes[5]) as i16,
    }
}

/// Decode one axis from its big-endian byte pair.
pub fn decode_axis(hi: u8, lo: u8) -> (v: i16)
    ensures
        v as int == axis_value(hi, lo),
{
    let word: i32 = (hi as i32) * 256 + (lo as i32);
    let value: i32 = if word >= 32768 {
        word - 65536
    } else {
        word
    };
    value as i16
}

/// Decode a six-byte data frame into a reading.
pub fn decode_sample(bytes: &[u8; 6]) -> (s: MagneticSample)
    ensures
        s == decoded_sample(bytes@),
{
    MagneticSample {
        x: decode_axis(bytes[0], bytes[1]),
        z: decode_axis(bytes[2], bytes[3]),
        y: decode_axis(bytes[4], bytes[5]),
    }
}

} // verus!
