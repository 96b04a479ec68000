//! The addressed-transaction bus interface and its error value.
//!
//! The sensor driver is generic over which concrete bus peripheral carries
//! its transactions; it needs only the two blocking transaction kinds below.
//! The board support layer implements this interface over the real two-wire
//! peripheral; tests implement it over a scripted stand-in.

use vstd::prelude::*;

verus! {

/// The single opaque error value that every bus-level failure surfaces as.
/// Callers never branch on the variant: any transaction failure is treated
/// identically by the control loop.
#[derive(Clone, Copy, PartialEq, Eq, Structural, Debug)]
pub enum BusError {
    /// The addressed device did not acknowledge the transaction.
    NoAcknowledge,
    /// Arbitration for the shared bus was lost mid-transaction.
    ArbitrationLoss,
    /// The transport reported a malformed or timed-out transaction.
    Fault,
}

/// A blocking, addressed serial bus: write a frame to a device, or write a
/// frame and then read back into a fixed six-byte buffer, in one transaction.
///
/// No behaviour is assumed of an implementation beyond its signature: the
/// verified driver states only what holds whatever a transaction returns.
pub trait TransactionBus {
    /// Write `bytes` to the device at `addr`, blocking until the transaction
    /// completes or fails.
    fn write(&mut self, addr: u8, bytes: &[u8]) -> Result<(), BusError>;

    /// Write `out` to the device at `addr`, then read six bytes from it into
    /// `input`, in a single transaction.
    fn write_read(&mut self, addr: u8, out: &[u8], input: &mut [u8; 6]) -> Result<(), BusError>;
}

} // verus!
