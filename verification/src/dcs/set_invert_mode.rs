//! Module for the color inversion instruction

use vstd::prelude::*;

use super::DcsCommand;
use crate::error::Error;
use crate::options::ColorInversion;

verus! {

/// Set Invert Mode
#[derive(Debug, Clone, Copy, PartialEq, Eq, Structural)]
pub struct SetInvertMode(pub ColorInversion);

impl SetInvertMode {
    /// Creates a new Set Invert Mode command.
    pub fn new(color_inversion: ColorInversion) -> (r: Self)
        ensures
            r.0 == color_inversion,
    {
        Self(color_inversion)
    }
}

impl DcsCommand for SetInvertMode {
    proof fn params_fit(&self) {
    }

    open spec fn spec_instruction(&self) -> u8 {
        match self.0 {
            ColorInversion::Normal => 0x20,
            ColorInversion::Inverted => 0x21,
        }
    }

    open spec fn spec_params(&self) -> Seq<u8> {
        Seq::empty()
    }

    fn instruction(&self) -> (i: u8) {
        match self.0 {
            ColorInversion::Normal => 0x20,
            ColorInversion::Inverted => 0x21,
        }
    }

    fn fill_params_buf(&self, buffer: &mut [u8]) -> (r: Result<usize, Error>) {
        assert(buffer@.subrange(0, buffer@.len() as int) =~= buffer@);
        Ok(0)
    }
}

} // verus!
