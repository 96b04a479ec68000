//! The magnetometer driver: device address, register protocol, operating
//! mode, and the two operations the control loop uses — construction (which
//! configures the device) and reading one sample.
//!
//! The driver owns its bus for its whole lifetime and is generic over which
//! concrete bus peripheral carries its transactions; the device address and
//! register layout are fixed by the board's wiring.

use vstd::prelude::*;

use crate::bus::{BusError, TransactionBus};
use crate::sample::{decode_sample, MagneticSample};

verus! {

/// The device's fixed factory bus address for its magnetometer registers.
pub const MAG_ADDRESS: u8 = 0x1E;

/// The configuration register that selects the output data rate.
pub const CONFIG_REGISTER: u8 = 0x00;

/// The first of the six consecutive data registers; reading from it returns
/// one two-byte value per axis.
pub const DATA_REGISTER: u8 = 0x03;

/// The operating mode applied exactly once at construction: the device's
/// output data rate, one of its fixed set of rate codes.
#[derive(Clone, Copy, PartialEq, Eq, Structural, Debug)]
pub enum OperatingMode {
    /// 0.75 Hz output data rate.
    Hz0_75,
    /// 1.5 Hz output data rate.
    Hz1_5,
    /// 3 Hz output data rate.
    Hz3,
    /// 7.5 Hz output data rate.
    Hz7_5,
    /// 15 Hz output data rate.
    Hz15,
    /// 30 Hz output data rate.
    Hz30,
    /// 75 Hz output data rate.
    Hz75,
    /// 220 Hz output data rate.
    Hz220,
}

impl OperatingMode {
    /// The configuration-register value that selects this mode: the device's
    /// three-bit rate code placed in bits 4 down to 2.
    pub open spec fn spec_config_value(self) -> u8 {
        match self {
            OperatingMode::Hz0_75 => 0x00,
            OperatingMode::Hz1_5 => 0x04,
            OperatingMode::Hz3 => 0x08,
            OperatingMode::Hz7_5 => 0x0C,
            OperatingMode::Hz15 => 0x10,
            OperatingMode::Hz30 => 0x14,
            OperatingMode::Hz75 => 0x18,
            OperatingMode::Hz220 => 0x1C,
        }
    }

    /// The configuration-register value that selects this mode.
    pub fn config_value(self) -> (v: u8)
        ensures
            v == self.spec_config_value(),
    {
        match self {
            OperatingMode::Hz0_75 => 0x00,
            OperatingMode::Hz1_5 => 0x04,
            OperatingMode::Hz3 => 0x08,
            OperatingMode::Hz7_5 => 0x0C,
            OperatingMode::Hz15 => 0x10,
            OperatingMode::Hz30 => 0x14,
            OperatingMode::Hz75 => 0x18,
            OperatingMode::Hz220 => 0x1C,
        }
    }
}

/// The frame of the one configuration write construction performs: the
/// configuration register's address followed by the mode's rate code. No
/// read stands in it.
pub open spec fn spec_config_frame(mode: OperatingMode) -> Seq<u8> {
    seq![CONFIG_REGISTER, mode.spec_config_value()]
}

/// Build the single configuration-write frame for a mode.
pub fn config_frame(mode: OperatingMode) -> (f: Vec<u8>)
    ensures
        f@ == spec_config_frame(mode),
        f@.len() == 2,
        f@[0] == CONFIG_REGISTER,
        f@[1] == mode.spec_config_value(),
{
    let mut f: Vec<u8> = Vec::new();
    f.push(CONFIG_REGISTER);
    f.push(mode.config_value());
    assert(f@ =~= spec_config_frame(mode));
    f
}

/// The magnetometer driver. It owns the bus handle for its whole lifetime —
/// no other component can issue transactions while it exists — and remembers
/// the operating mode it was configured with.
pub struct Compass<B: TransactionBus> {
    bus: B,
    mode: OperatingMode,
}

impl<B: TransactionBus> Compass<B> {
    /// The operating mode the device was configured with at construction.
    pub closed spec fn configured_mode(self) -> OperatingMode {
        self.mode
    }

    /// Take exclusive ownership of the bus and configure the device:
    /// perform the one configuration write — which doubles as the
    /// device-presence handshake — and return a ready driver, or the bus
    /// error if the device did not answer. Construction is all-or-nothing:
    /// no half-initialized driver is ever returned, and no data read is
    /// attempted here.
    pub fn new(bus: B, mode: OperatingMode) -> (r: Result<Compass<B>, BusError>)
        ensures
            r matches Ok(c) ==> c.configured_mode() == mode,
    {
        let mut bus = bus;
        let frame = config_frame(mode);
        match bus.write(MAG_ADDRESS, frame.as_slice()) {
            Ok(()) => Ok(Compass { bus, mode }),
            Err(e) => Err(e),
        }
    }

    /// Read one sample: one write-then-read transaction against the six
    /// data registers, decoded into a reading. Whatever six bytes the bus
    /// returned, the result is exactly their decoding; a failed transaction
    /// surfaces as the bus's error. The configured mode is untouched.
    pub fn get_compass_reading(&mut self) -> (r: Result<MagneticSample, BusError>)
        ensures
            final(self).configured_mode() == old(self).configured_mode(),
    {
        let mut buf: [u8; 6] = [0; 6];
        let out: Vec<u8> = vec![DATA_REGISTER];
        match self.bus.write_read(MAG_ADDRESS, out.as_slice(), &mut buf) {
            Ok(()) => Ok(decode_sample(&buf)),
            Err(e) => Err(e),
        }
    }
}

} // verus!
