//! MIPI DCS commands.

use vstd::prelude::*;

use crate::error::Error;
use crate::interface::{sent, Interface, Transfer};

pub mod commands;
pub mod set_address_mode;
pub mod set_column_address;
pub mod set_invert_mode;

pub use commands::{
    BitsPerPixel, EnterNormalMode, EnterSleepMode, ExitSleepMode, PixelFormat, SetDisplayOn,
    SetPageAddress, SetPixelFormat, SetScrollArea, SetScrollStart, SetTearingEffect, SoftReset,
    WriteMemoryStart,
};
pub use set_address_mode::{address_mode_bits_of, SetAddressMode};
pub use set_column_address::SetColumnAddress;
pub use set_invert_mode::SetInvertMode;

verus! {

/// The size of the parameter buffer that commands are encoded into.
pub const PARAM_BUFFER_LEN: usize = 16;

/// The two bytes of a 16 bit value, most significant first.
pub open spec fn be_bytes(v: u16) -> Seq<u8> {
    seq![(v / 256) as u8, (v % 256) as u8]
}

/// Common trait for DCS commands.
///
/// The methods in this traits are used to convert a DCS command into bytes.
pub trait DcsCommand {
    /// The instruction code of the command.
    spec fn spec_instruction(&self) -> u8;

    /// The parameter bytes of the command.
    spec fn spec_params(&self) -> Seq<u8>;

    /// A command has at most [`PARAM_BUFFER_LEN`] parameter bytes.
    proof fn params_fit(&self)
        ensures
            self.spec_params().len() <= PARAM_BUFFER_LEN,
    ;

    /// Returns the instruction code.
    fn instruction(&self) -> (i: u8)
        ensures
            i == self.spec_instruction(),
    ;

    /// Fills the given buffer with the command parameters.
    ///
    /// A command has at most [`PARAM_BUFFER_LEN`] parameter bytes, and filling a
    /// buffer that has room for them succeeds.
    fn fill_params_buf(&self, buffer: &mut [u8]) -> (r: Result<usize, Error>)
        requires
            old(buffer)@.len() >= self.spec_params().len(),
        ensures
            self.spec_params().len() <= PARAM_BUFFER_LEN,
            r == Ok::<usize, Error>(self.spec_params().len() as usize),
            final(buffer)@.len() == old(buffer)@.len(),
            final(buffer)@.subrange(0, self.spec_params().len() as int) == self.spec_params(),
            final(buffer)@.subrange(self.spec_params().len() as int, final(buffer)@.len() as int)
                == old(buffer)@.subrange(
                self.spec_params().len() as int,
                old(buffer)@.len() as int,
            ),
    ;
}

/// The transfer by which a command reaches the display.
pub open spec fn command_transfer<W, C: DcsCommand>(command: C) -> Transfer<W> {
    Transfer::Command { instruction: command.spec_instruction(), params: command.spec_params() }
}

/// Sends a DCS command to the display interface.
pub fn write_command<DI: Interface, C: DcsCommand>(di: &mut DI, command: &C) -> (r: Result<
    (),
    DI::Error,
>)
    ensures
        sent(*old(di), *final(di), seq![command_transfer::<DI::Word, C>(*command)], r),
{
    let mut param_bytes: [u8; 16] = [0u8; 16];
    proof {
        command.params_fit();
    }
    let r = command.fill_params_buf(&mut param_bytes);
    let n: usize = match r {
        Ok(n) => n,
        Err(_) => 0,
    };
    let params = vstd::slice::slice_subrange(param_bytes.as_slice(), 0, n);
    assert(params@ == command.spec_params());
    di.send_command(command.instruction(), params)
}

/// Sends a raw command with the given `instruction` and parameter bytes to the
/// display interface.
pub fn write_raw<DI: Interface>(di: &mut DI, instruction: u8, param_bytes: &[u8]) -> (r: Result<
    (),
    DI::Error,
>)
    ensures
        sent(*old(di), *final(di), seq![Transfer::Command { instruction, params: param_bytes@ }], r),
{
    di.send_command(instruction, param_bytes)
}

/// Wrapper around an interface with support for writing DCS commands.
///
/// Commands which are part of the manufacturer independent user command set can be sent to the
/// display by using the [`write_command`](Self::write_command) method with one of the command types
/// in this module.
///
/// All other commands, which do not have an associated type in this module, can be sent using
/// the [`write_raw`](Self::write_raw) method. The underlying display interface is also accessible
/// using the public [`di`](Self::di) field.
pub struct Dcs<DI> {
    /// Display interface instance.
    pub di: DI,
}

impl<DI> Dcs<DI> {
    /// Creates a new [Dcs] instance from a display interface.
    pub fn write_only(di: DI) -> (r: Self)
        ensures
            r.di == di,
    {
        Self { di }
    }

    /// Releases the display interface.
    pub fn release(self) -> (di: DI)
        ensures
            di == self.di,
    {
        self.di
    }
}

impl<DI: Interface> Dcs<DI> {
    /// Sends a DCS command to the display interface.
    pub fn write_command<C: DcsCommand>(&mut self, command: &C) -> (r: Result<(), DI::Error>)
        ensures
            sent(old(self).di, final(self).di, seq![command_transfer::<DI::Word, C>(*command)], r),
    {
        write_command(&mut self.di, command)
    }

    /// Sends a raw command with the given `instruction` to the display interface.
    ///
    /// The `param_bytes` slice can contain the instruction parameters, which are sent as data after
    /// the instruction code was sent. If no parameters are required an empty slice can be passed to
    /// this method.
    pub fn write_raw(&mut self, instruction: u8, param_bytes: &[u8]) -> (r: Result<(), DI::Error>)
        ensures
            sent(
                old(self).di,
                final(self).di,
                seq![Transfer::Command { instruction, params: param_bytes@ }],
                r,
            ),
    {
        write_raw(&mut self.di, instruction, param_bytes)
    }
}

} // verus!
