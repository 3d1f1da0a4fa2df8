//! Initialization common to the ILI934x controllers.

use vstd::prelude::*;

use super::{address_mode_command, command, delay, invert_mode_command, InitAction, InitScript};
use crate::dcs::{
    address_mode_bits_of, EnterNormalMode, ExitSleepMode, PixelFormat, SetAddressMode, SetDisplayOn,
    SetInvertMode, SetPixelFormat,
};
use crate::options::ModelOptions;

verus! {

/// The initialization of an ILI934x controller with the given pixel format byte.
pub open spec fn ili934x_init(options: ModelOptions, pixel_format: u8) -> Seq<InitAction> {
    seq![
        delay(5000),
        address_mode_command(options),
        command(0xB4, seq![0x00u8]),
        invert_mode_command(options),
        command(0x3A, seq![pixel_format]),
        command(0x13, Seq::empty()),
        delay(120000),
        command(0x11, Seq::empty()),
        delay(140000),
        command(0x29, Seq::empty()),
    ]
}

/// Common init for all ILI934x controllers and color formats.
pub fn init_common(options: &ModelOptions, pixel_format: PixelFormat) -> (r: (
    InitScript,
    SetAddressMode,
))
    ensures
        r.0.actions() == ili934x_init(*options, pixel_format.spec_as_u8()),
        r.1.bits() == address_mode_bits_of(*options),
{
    let madctl = SetAddressMode::from_options(options);
    let mut script = InitScript::new();
    script.delay_us(5000);
    script.command(&madctl);
    let params = [0x00u8];
    assert(params@ =~= seq![0x00u8]);
    script.raw(0xB4, &params);
    script.command(&SetInvertMode::new(options.invert_colors));
    script.command(&SetPixelFormat::new(pixel_format));
    script.command(&EnterNormalMode);
    script.delay_us(120000);
    script.command(&ExitSleepMode);
    script.delay_us(140000);
    script.command(&SetDisplayOn);
    assert(script.actions() =~= ili934x_init(*options, pixel_format.spec_as_u8()));
    (script, madctl)
}

} // verus!
