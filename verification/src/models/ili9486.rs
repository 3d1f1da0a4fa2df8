//! ILI9486 display models.

use vstd::prelude::*;

use super::{
    address_mode_command, command, delay, invert_mode_command, pixel_format_565, pixel_format_666,
    InitAction, InitScript, Model,
};
use crate::dcs::{
    address_mode_bits_of, EnterNormalMode, ExitSleepMode, PixelFormat, SetAddressMode, SetDisplayOn,
    SetInvertMode, SetPixelFormat,
};
use crate::options::ModelOptions;
use crate::pixelcolor::{Rgb565, Rgb666};

verus! {

/// ILI9486 display in Rgb565 color mode.
pub struct ILI9486Rgb565;

/// ILI9486 display in Rgb666 color mode.
pub struct ILI9486Rgb666;

/// The initialization of an ILI9486 controller with the given pixel format byte.
pub open spec fn ili9486_init(options: ModelOptions, pixel_format: u8) -> Seq<InitAction> {
    seq![delay(120000)] + seq![
        command(0x11, Seq::empty()),
        command(0x3A, seq![pixel_format]),
        address_mode_command(options),
        invert_mode_command(options),
        command(0xB6, seq![0x02u8, 0x02u8, 0x3Bu8]),
        command(0x13, Seq::empty()),
        command(0x29, Seq::empty()),
        delay(120000),
    ]
}

// common init for all color format models
fn init_common(options: &ModelOptions, pixel_format: PixelFormat) -> (r: (
    InitScript,
    SetAddressMode,
))
    ensures
        r.0.actions() == ili9486_init(*options, pixel_format.spec_as_u8()),
        r.1.bits() == address_mode_bits_of(*options),
{
    let madctl = SetAddressMode::from_options(options);
    let mut script = InitScript::new();
    script.delay_us(120000);
    script.command(&ExitSleepMode);
    script.command(&SetPixelFormat::new(pixel_format));
    script.command(&madctl);
    script.command(&SetInvertMode::new(options.invert_colors));
    let params = [0x02u8, 0x02u8, 0x3Bu8];
    assert(params@ =~= seq![0x02u8, 0x02u8, 0x3Bu8]);
    script.raw(0xB6, &params);
    script.command(&EnterNormalMode);
    script.command(&SetDisplayOn);
    script.delay_us(120000);
    assert(script.actions() =~= ili9486_init(*options, pixel_format.spec_as_u8()));
    (script, madctl)
}

impl Model for ILI9486Rgb565 {
    type ColorFormat = Rgb565;

    open spec fn spec_framebuffer_size() -> (u16, u16) {
        (320, 480)
    }

    open spec fn spec_init(options: ModelOptions, has_reset_pin: bool) -> Seq<InitAction> {
        ili9486_init(options, 0x55)
    }

    fn framebuffer_size() -> (r: (u16, u16)) {
        (320, 480)
    }

    fn init(&mut self, options: &ModelOptions, has_reset_pin: bool) -> (r: (
        InitScript,
        SetAddressMode,
    )) {
        init_common(options, pixel_format_565())
    }
}

impl Model for ILI9486Rgb666 {
    type ColorFormat = Rgb666;

    open spec fn spec_framebuffer_size() -> (u16, u16) {
        (320, 480)
    }

    open spec fn spec_init(options: ModelOptions, has_reset_pin: bool) -> Seq<InitAction> {
        ili9486_init(options, 0x66)
    }

    fn framebuffer_size() -> (r: (u16, u16)) {
        (320, 480)
    }

    fn init(&mut self, options: &ModelOptions, has_reset_pin: bool) -> (r: (
        InitScript,
        SetAddressMode,
    )) {
        init_common(options, pixel_format_666())
    }
}

} // verus!
