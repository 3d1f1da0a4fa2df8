//! RM67162 AMOLED display model.

use vstd::prelude::*;

use super::{
    address_mode_command, command, delay, invert_mode_command, pixel_format_565,
    InitAction, InitScript, Model,
};
use crate::dcs::{ExitSleepMode, SetAddressMode, SetDisplayOn, SetInvertMode, SetPixelFormat};
use crate::options::ModelOptions;
use crate::pixelcolor::{Rgb565};

verus! {

/// RM67162 AMOLED display driver implementation
/// Supports:
/// - 16-bit RGB565 color
/// - 240x536 resolution
pub struct RM67162;

impl Model for RM67162 {
    type ColorFormat = Rgb565;

    open spec fn spec_framebuffer_size() -> (u16, u16) {
        (240, 536)
    }

    open spec fn spec_init(options: ModelOptions, has_reset_pin: bool) -> Seq<InitAction> {
        seq![
            command(0xFE, seq![0x04u8]),
            command(0x6A, seq![0x00u8]),
            command(0xFE, seq![0x05u8]),
            command(0xFE, seq![0x07u8]),
            command(0x07, seq![0x4Fu8]),
            command(0xFE, seq![0x01u8]),
            command(0x2A, seq![0x02u8]),
            command(0x2B, seq![0x73u8]),
            command(0xFE, seq![0x0Au8]),
            command(0x29, Seq::empty()),
            command(0xFE, seq![0x00u8]),
            command(0x51, seq![0xAFu8]),
        ] + seq![
            command(0x53, seq![0x20u8]),
            command(0x35, seq![0x00u8]),
            command(0x3A, seq![0x55u8]),
            command(0xC4, seq![0x80u8]),
            address_mode_command(options),
            invert_mode_command(options),
            command(0x11, Seq::empty()),
            delay(120000),
            command(0x29, Seq::empty()),
        ]
    }

    fn framebuffer_size() -> (r: (u16, u16)) {
        (240, 536)
    }

    fn init(&mut self, options: &ModelOptions, has_reset_pin: bool) -> (r: (
        InitScript,
        SetAddressMode,
    )) {
        let madctl = SetAddressMode::from_options(options);
        let pixel_format = pixel_format_565();
        let mut script = InitScript::new();
        let params = [0x04u8];
        assert(params@ =~= seq![0x04u8]);
        script.raw(0xFE, &params);
        let params = [0x00u8];
        assert(params@ =~= seq![0x00u8]);
        script.raw(0x6A, &params);
        let params = [0x05u8];
        assert(params@ =~= seq![0x05u8]);
        script.raw(0xFE, &params);
        let params = [0x07u8];
        assert(params@ =~= seq![0x07u8]);
        script.raw(0xFE, &params);
        let params = [0x4Fu8];
        assert(params@ =~= seq![0x4Fu8]);
        script.raw(0x07, &params);
        let params = [0x01u8];
        assert(params@ =~= seq![0x01u8]);
        script.raw(0xFE, &params);
        let params = [0x02u8];
        assert(params@ =~= seq![0x02u8]);
        script.raw(0x2A, &params);
        let params = [0x73u8];
        assert(params@ =~= seq![0x73u8]);
        script.raw(0x2B, &params);
        let params = [0x0Au8];
        assert(params@ =~= seq![0x0Au8]);
        script.raw(0xFE, &params);
        script.command(&SetDisplayOn);
        let params = [0x00u8];
        assert(params@ =~= seq![0x00u8]);
        script.raw(0xFE, &params);
        let params = [0xAFu8];
        assert(params@ =~= seq![0xAFu8]);
        script.raw(0x51, &params);
        let params = [0x20u8];
        assert(params@ =~= seq![0x20u8]);
        script.raw(0x53, &params);
        let params = [0x00u8];
        assert(params@ =~= seq![0x00u8]);
        script.raw(0x35, &params);
        script.command(&SetPixelFormat::new(pixel_format));
        let params = [0x80u8];
        assert(params@ =~= seq![0x80u8]);
        script.raw(0xC4, &params);
        script.command(&madctl);
        script.command(&SetInvertMode::new(options.invert_colors));
        script.command(&ExitSleepMode);
        script.delay_us(120000);
        script.command(&SetDisplayOn);
        assert(script.actions() =~= Self::spec_init(*options, has_reset_pin));
        (script, madctl)

    }
}

} // verus!
