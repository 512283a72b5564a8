//! Interfaces to the hardware that the driver is run against: a raw I2C bus
//! and a millisecond delay source. The embedding firmware supplies the
//! implementations; the driver only relies on the contracts stated here.
use vstd::prelude::*;

verus! {

/// One step of the driver's externally visible activity, as its contracts
/// record it: a completed write or read transaction addressed to the
/// device, or a settle delay. The driver keeps a ghost trace of these (see
/// `Notecard::wire_trace`) so its contracts can pin down exactly what
/// reaches the wire, and when it waits.
pub enum TraceEvent {
    Write { addr: u8, data: Seq<u8> },
    Read { addr: u8, data: Seq<u8> },
    Delay { ms: u16 },
}

/// A blocking I2C bus master.
///
/// Every transfer of the protocol is a single write or a single read
/// transaction addressed to the device's 7-bit address. Nothing is assumed
/// about the bytes a read produces beyond their number: the device decides
/// them, and the driver must be correct for every outcome.
pub trait I2cBus {
    /// Write `data` to the device at `addr` in one bus transaction.
    /// `Err(())` means the transaction failed at the bus level.
    fn bus_write(&mut self, addr: u8, data: &[u8]) -> (r: Result<(), ()>);

    /// Read exactly `n` bytes from the device at `addr` in one bus
    /// transaction. `Err(())` means the transaction failed at the bus level.
    fn bus_read(&mut self, addr: u8, n: usize) -> (r: Result<Vec<u8>, ()>)
        ensures
            r is Ok ==> r->Ok_0@.len() == n as int,
    ;
}

/// A blocking millisecond delay source.
///
/// The driver never spins on its own: all waiting between poll attempts and
/// between chunk writes goes through this trait, so the embedding firmware
/// chooses how time passes.
pub trait DelayMs {
    /// Block for (at least) `ms` milliseconds.
    fn delay_ms(&mut self, ms: u16);
}

} // verus!
