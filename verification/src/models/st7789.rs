//! ST7789 display model.

use vstd::prelude::*;

use super::{
    address_mode_command, command, delay, invert_mode_command, pixel_format_565, InitAction,
    InitScript, Model,
};
use crate::dcs::{
    EnterNormalMode, ExitSleepMode, SetAddressMode, SetDisplayOn, SetInvertMode, SetPixelFormat,
};
use crate::options::ModelOptions;
use crate::pixelcolor::Rgb565;

verus! {

/// ST7789 display in Rgb565 color mode.
pub struct ST7789;

impl Model for ST7789 {
    type ColorFormat = Rgb565;

    open spec fn spec_framebuffer_size() -> (u16, u16) {
        (240, 320)
    }

    open spec fn spec_init(options: ModelOptions, has_reset_pin: bool) -> Seq<InitAction> {
        seq![
            delay(150000),
            command(0x11, Seq::empty()),
            delay(10000),
            address_mode_command(options),
            invert_mode_command(options),
            command(0x3A, seq![0x55u8]),
            delay(10000),
            command(0x13, Seq::empty()),
            delay(10000),
            command(0x29, Seq::empty()),
            delay(120000),
        ]
    }

    fn framebuffer_size() -> (r: (u16, u16)) {
        (240, 320)
    }

    fn init(&mut self, options: &ModelOptions, has_reset_pin: bool) -> (r: (
        InitScript,
        SetAddressMode,
    )) {
        let madctl = SetAddressMode::from_options(options);
        let pixel_format = pixel_format_565();
        let mut script = InitScript::new();
        script.delay_us(150000);
        script.command(&ExitSleepMode);
        script.delay_us(10000);
        script.command(&madctl);
        script.command(&SetInvertMode::new(options.invert_colors));
        script.command(&SetPixelFormat::new(pixel_format));
        script.delay_us(10000);
        script.command(&EnterNormalMode);
        script.delay_us(10000);
        script.command(&SetDisplayOn);
        script.delay_us(120000);
        assert(script.actions() =~= Self::spec_init(*options, has_reset_pin));
        (script, madctl)

    }
}

} // verus!
