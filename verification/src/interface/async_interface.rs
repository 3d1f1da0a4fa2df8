//! Hybrid interface that sends commands blocking and pixel data asynchronously.

use vstd::prelude::*;

verus! {

/// Spi interface error
#[derive(Clone, Copy, Debug)]
pub enum AsyncSpiError<SPI, DC> {
    /// SPI bus error
    Spi(SPI),
    /// Data/command pin error
    Dc(DC),
}

/// Hybrid Async/sync Spi interface that sends commands in a sync blocking way while
/// flushing any buffered (elsewhere) data using `flush`
///
pub struct AsyncSpiInterface<SPI, DC> {
    spi: SPI,
    dc: DC,
}

impl<SPI, DC> AsyncSpiInterface<SPI, DC> {
    /// The SPI device.
    pub closed spec fn spi(&self) -> SPI {
        self.spi
    }

    /// The data/command pin.
    pub closed spec fn dc(&self) -> DC {
        self.dc
    }

    /// Create new interface
    pub fn new(spi: SPI, dc: DC) -> (r: Self)
        ensures
            r.spi() == spi,
            r.dc() == dc,
    {
        Self { spi, dc }
    }

    /// The SPI device and the data/command pin, to carry out transfers with.
    pub fn parts_mut(&mut self) -> (r: (&mut SPI, &mut DC))
        ensures
            *r.0 == old(self).spi(),
            *r.1 == old(self).dc(),
            final(self).spi() == *final(r.0),
            final(self).dc() == *final(r.1),
    {
        (&mut self.spi, &mut self.dc)
    }
}

} // verus!
