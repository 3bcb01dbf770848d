//! Device drivers: one blocking and one suspension-capable driver per
//! device variant, all four applying the same frame codec.
//!
//! A driver owns its bus handle for its whole lifetime and keeps no other
//! state: every read is one independent encode → transaction → decode
//! exchange, with a bus fault propagated verbatim.
//!
//! The suspension-capable variants hold the bus handle here, but their
//! read suspends across the bus transaction, so that read is performed by
//! the surrounding application, which builds the command frame with
//! [`crate::encode_command`] and extracts the sample with
//! [`crate::decode_reply`] — the identical codec the blocking reads use.

use vstd::prelude::*;

use crate::bus::SpiTransaction;
use crate::channel::Channels4;
use crate::channel::Channels8;
use crate::codec::decode_reply;
use crate::codec::encode_command;

verus! {

/// Synchronous MCP3008 driver.
pub struct Mcp3008<SpiDev> {
    spi_dev: SpiDev,
}

/// Suspension-capable MCP3008 driver state.
pub struct AsyncMcp3008<SpiDev> {
    /// The owned bus handle, driven by the suspension-capable read path
    /// of the surrounding application.
    pub spi_dev: SpiDev,
}

/// Synchronous MCP3004 driver.
pub struct Mcp3004<SpiDev> {
    spi_dev: SpiDev,
}

/// Suspension-capable MCP3004 driver state.
pub struct AsyncMcp3004<SpiDev> {
    /// The owned bus handle, driven by the suspension-capable read path
    /// of the surrounding application.
    pub spi_dev: SpiDev,
}

impl<SpiDev> Mcp3008<SpiDev> where SpiDev: SpiTransaction {
    /// The bus handle this driver owns.
    pub closed spec fn bus(self) -> SpiDev {
        self.spi_dev
    }

    /// Creates a new driver that takes ownership of its bus handle.
    pub fn new(spi_dev: SpiDev) -> (r: Self)
        ensures
            r.bus() == spi_dev,
    {
        Mcp3008 { spi_dev }
    }

    /// Read an MCP3008 channel and return the 10-bit sample.
    ///
    /// One atomic bus transaction is issued; whatever reply it yields is
    /// decodable, so the only failure is a fault of the bus itself, which
    /// is returned unchanged.
    pub fn read_channel(&mut self, ch: Channels8) -> (r: Result<u16, SpiDev::BusError>)
        ensures
            r is Ok ==> r->Ok_0 <= 1023,
    {
        let command: [u8; 3] = encode_command(ch.code());
        match self.spi_dev.transaction(command) {
            Ok(reply) => Ok(decode_reply(reply)),
            Err(e) => Err(e),
        }
    }

    /// Consumes the driver and returns the bus handle it owned.
    pub fn free(self) -> (r: SpiDev)
        ensures
            r == self.bus(),
    {
        self.spi_dev
    }
}

impl<SpiDev> AsyncMcp3008<SpiDev> {
    /// Creates a new suspension-capable driver that takes ownership of
    /// its bus handle.
    pub fn new(spi_dev: SpiDev) -> (r: Self)
        ensures
            r.spi_dev == spi_dev,
    {
        AsyncMcp3008 { spi_dev }
    }
}

impl<SpiDev> Mcp3004<SpiDev> where SpiDev: SpiTransaction {
    /// The bus handle this driver owns.
    pub closed spec fn bus(self) -> SpiDev {
        self.spi_dev
    }

    /// Creates a new driver that takes ownership of its bus handle.
    pub fn new(spi_dev: SpiDev) -> (r: Self)
        ensures
            r.bus() == spi_dev,
    {
        Mcp3004 { spi_dev }
    }

    /// Read an MCP3004 channel and return the 10-bit sample.
    ///
    /// One atomic bus transaction is issued; whatever reply it yields is
    /// decodable, so the only failure is a fault of the bus itself, which
    /// is returned unchanged.
    pub fn read_channel(&mut self, ch: Channels4) -> (r: Result<u16, SpiDev::BusError>)
        ensures
            r is Ok ==> r->Ok_0 <= 1023,
    {
        let command: [u8; 3] = encode_command(ch.code());
        match self.spi_dev.transaction(command) {
            Ok(reply) => Ok(decode_reply(reply)),
            Err(e) => Err(e),
        }
    }

    /// Consumes the driver and returns the bus handle it owned.
    pub fn free(self) -> (r: SpiDev)
        ensures
            r == self.bus(),
    {
        self.spi_dev
    }
}

impl<SpiDev> AsyncMcp3004<SpiDev> {
    /// Creates a new suspension-capable driver that takes ownership of
    /// its bus handle.
    pub fn new(spi_dev: SpiDev) -> (r: Self)
        ensures
            r.spi_dev == spi_dev,
    {
        AsyncMcp3004 { spi_dev }
    }
}

} // verus!
