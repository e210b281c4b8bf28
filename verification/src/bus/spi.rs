//! A SPI transport with a separate data/command line.
//!
//! The struct only owns the two ports; driving them is inherently I/O and
//! lives with the code that owns the peripherals.

use vstd::prelude::*;

verus! {

/// What went wrong on a SPI display link: the SPI transfer itself, or the
/// data/command select line.
#[derive(Debug, Clone, Copy, PartialEq, Eq)]
pub enum SpiDisplayBusError<E1, E2> {
    /// The SPI transfer failed.
    Spi(E1),
    /// Driving the data/command line failed.
    Dc(E2),
}

/// A display bus made of a SPI device and a data/command select pin.
pub struct SpiDisplayBus<SPI, DC> {
    /// The SPI device.
    pub spi: SPI,
    /// The data/command select pin: low for commands, high for data.
    pub dc: DC,
}

impl<SPI, DC> SpiDisplayBus<SPI, DC> {
    /// Creates a bus from its two ports.
    pub fn new(spi: SPI, dc: DC) -> (r: SpiDisplayBus<SPI, DC>)
        ensures
            r.spi == spi,
            r.dc == dc,
    {
        SpiDisplayBus { spi, dc }
    }
}

} // verus!
