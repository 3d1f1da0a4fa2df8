//! Module for the CASET address window instruction constructors

use vstd::prelude::*;

use super::{be_bytes, DcsCommand};
use crate::error::Error;

verus! {

/// Set Column Address
#[derive(Debug, Clone, PartialEq, Eq, Structural)]
pub struct SetColumnAddress {
    start_column: u16,
    end_column: u16,
}

impl SetColumnAddress {
    /// The first column of the window.
    pub closed spec fn start(&self) -> u16 {
        self.start_column
    }

    /// The last column of the window.
    pub closed spec fn end(&self) -> u16 {
        self.end_column
    }

    /// Creates a new Set Column Address command.
    pub fn new(start_column: u16, end_column: u16) -> (r: Self)
        ensures
            r.start() == start_column,
            r.end() == end_column,
    {
        Self { start_column, end_column }
    }
}

impl DcsCommand for SetColumnAddress {
    proof fn params_fit(&self) {
    }

    open spec fn spec_instruction(&self) -> u8 {
        0x2A
    }

    open spec fn spec_params(&self) -> Seq<u8> {
        be_bytes(self.start()) + be_bytes(self.end())
    }

    fn instruction(&self) -> (i: u8) {
        0x2A
    }

    fn fill_params_buf(&self, buffer: &mut [u8]) -> (r: Result<usize, Error>) {
        write_u16_pair(buffer, self.start_column, self.end_column);
        Ok(4)
    }
}

/// Writes two 16 bit values into the first four bytes of a buffer, most
/// significant byte first.
pub(crate) fn write_u16_pair(buffer: &mut [u8], first: u16, second: u16)
    requires
        old(buffer)@.len() >= 4,
    ensures
        final(buffer)@.len() == old(buffer)@.len(),
        final(buffer)@.subrange(0, 4) == be_bytes(first) + be_bytes(second),
        final(buffer)@.subrange(4, final(buffer)@.len() as int) == old(buffer)@.subrange(
            4,
            old(buffer)@.len() as int,
        ),
{
    buffer[0] = (first / 256) as u8;
    buffer[1] = (first % 256) as u8;
    buffer[2] = (second / 256) as u8;
    buffer[3] = (second % 256) as u8;
    assert(buffer@.subrange(0, 4) =~= be_bytes(first) + be_bytes(second));
    assert(buffer@.subrange(4, buffer@.len() as int) =~= old(buffer)@.subrange(
        4,
        old(buffer)@.len() as int,
    ));
}

} // verus!
