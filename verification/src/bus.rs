//! The bus transaction capability the drivers are built over.
//!
//! The converter's timing requires the command to be written and the reply
//! to be read within one continuous chip-select assertion, so the whole
//! exchange is a single atomic operation of the bus, not two. Ownership of
//! the physical bus, clocking and chip-select timing belong to the
//! implementor; the drivers only hand it frames and decode what comes back.

use vstd::prelude::*;

verus! {

/// A full-duplex, fixed-length bus transaction capability.
///
/// An implementation writes the 3-byte command and then reads the 3-byte
/// reply while holding the chip selected across both steps. Nothing is
/// promised of the reply bytes — they come from the hardware — and a
/// returned fault is the bus's own, reported verbatim.
pub trait SpiTransaction {
    /// The bus's fault type, opaque to the drivers and passed through
    /// unchanged to their callers.
    type BusError;

    /// Perform one atomic write-then-read exchange of 3 bytes each way.
    fn transaction(&mut self, command: [u8; 3]) -> Result<[u8; 3], Self::BusError>;
}

} // verus!
