//! What the driver needs from the outside: a bus to the chip, and a way to let time pass.

use vstd::prelude::*;

verus! {

/// The bus that the chip sits on, together with the means to wait.
///
/// The driver owns its transport and is its only user: between two requests of one
/// operation nothing else is sent.
pub trait Transport {
    /// The bus's own error. The driver hands it on as it is.
    type Error;

    /// Sends `bytes` to the device at the seven-bit address `address`.
    fn write(&mut self, address: u8, bytes: &[u8]) -> Result<(), Self::Error>;

    /// Sends `bytes` to the device at `address` and then, in the same transaction, fills
    /// `buffer` with what the device answers.
    fn write_read(&mut self, address: u8, bytes: &[u8], buffer: &mut [u8]) -> Result<
        (),
        Self::Error,
    >;

    /// Returns when `ms` milliseconds have passed. A transport without a clock may return
    /// at once; the settle time after a reset and the time between the polls of a
    /// calibration are then the caller's to provide.
    fn suspend(&mut self, ms: u64);
}

} // verus!
