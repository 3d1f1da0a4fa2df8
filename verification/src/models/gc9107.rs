//! GC9107 display model.

use vstd::prelude::*;

use super::{
    address_mode_command, command, delay, invert_mode_command, pixel_format_565,
    InitAction, InitScript, Model,
};
use crate::dcs::{ExitSleepMode, SetAddressMode, SetDisplayOn, SetInvertMode, SetPixelFormat};
use crate::options::ModelOptions;
use crate::pixelcolor::{Rgb565};

verus! {

/// GC9107 display in Rgb565 color mode.
pub struct GC9107;

impl Model for GC9107 {
    type ColorFormat = Rgb565;

    open spec fn spec_framebuffer_size() -> (u16, u16) {
        (128, 160)
    }

    open spec fn spec_init(options: ModelOptions, has_reset_pin: bool) -> Seq<InitAction> {
        seq![
            delay(200000),
            address_mode_command(options),
            command(0xB0, seq![0xC0u8]),
            command(0xB2, seq![0x2Fu8]),
            command(0xB3, seq![0x03u8]),
            command(0xB6, seq![0x19u8]),
            command(0xB7, seq![0x01u8]),
            command(0xAC, seq![0xCBu8]),
            command(0xAB, seq![0x0Eu8]),
            command(0xB4, seq![0x04u8]),
            command(0xA8, seq![0x19u8]),
            command(0x3A, seq![0x55u8]),
        ] + seq![
            command(0xB8, seq![0x08u8]),
            command(0xE8, seq![0x24u8]),
            command(0xE9, seq![0x48u8]),
            command(0xEA, seq![0x22u8]),
            command(0xC6, seq![0x30u8]),
            command(0xC7, seq![0x18u8]),
            command(0xF0, seq![0x1Fu8, 0x28u8, 0x04u8, 0x3Eu8, 0x2Au8, 0x2Eu8, 0x20u8, 0x00u8, 0x0Cu8, 0x06u8, 0x00u8, 0x1Cu8, 0x1Fu8, 0x0Fu8]),
            command(0xF1, seq![0x00u8, 0x2Du8, 0x2Fu8, 0x3Cu8, 0x6Fu8, 0x1Cu8, 0x0Bu8, 0x00u8, 0x00u8, 0x00u8, 0x07u8, 0x0Du8, 0x11u8, 0x0Fu8]),
            invert_mode_command(options),
            command(0x11, Seq::empty()),
            delay(120000),
            command(0x29, Seq::empty()),
        ]
    }

    fn framebuffer_size() -> (r: (u16, u16)) {
        (128, 160)
    }

    fn init(&mut self, options: &ModelOptions, has_reset_pin: bool) -> (r: (
        InitScript,
        SetAddressMode,
    )) {
        let madctl = SetAddressMode::from_options(options);
        let pixel_format = pixel_format_565();
        let mut script = InitScript::new();
        script.delay_us(200000);
        script.command(&madctl);
        let params = [0xC0u8];
        assert(params@ =~= seq![0xC0u8]);
        script.raw(0xB0, &params);
        let params = [0x2Fu8];
        assert(params@ =~= seq![0x2Fu8]);
        script.raw(0xB2, &params);
        let params = [0x03u8];
        assert(params@ =~= seq![0x03u8]);
        script.raw(0xB3, &params);
        let params = [0x19u8];
        assert(params@ =~= seq![0x19u8]);
        script.raw(0xB6, &params);
        let params = [0x01u8];
        assert(params@ =~= seq![0x01u8]);
        script.raw(0xB7, &params);
        let params = [0xCBu8];
        assert(params@ =~= seq![0xCBu8]);
        script.raw(0xAC, &params);
        let params = [0x0Eu8];
        assert(params@ =~= seq![0x0Eu8]);
        script.raw(0xAB, &params);
        let params = [0x04u8];
        assert(params@ =~= seq![0x04u8]);
        script.raw(0xB4, &params);
        let params = [0x19u8];
        assert(params@ =~= seq![0x19u8]);
        script.raw(0xA8, &params);
        script.command(&SetPixelFormat::new(pixel_format));
        let params = [0x08u8];
        assert(params@ =~= seq![0x08u8]);
        script.raw(0xB8, &params);
        let params = [0x24u8];
        assert(params@ =~= seq![0x24u8]);
        script.raw(0xE8, &params);
        let params = [0x48u8];
        assert(params@ =~= seq![0x48u8]);
        script.raw(0xE9, &params);
        let params = [0x22u8];
        assert(params@ =~= seq![0x22u8]);
        script.raw(0xEA, &params);
        let params = [0x30u8];
        assert(params@ =~= seq![0x30u8]);
        script.raw(0xC6, &params);
        let params = [0x18u8];
        assert(params@ =~= seq![0x18u8]);
        script.raw(0xC7, &params);
        let params = [0x1Fu8, 0x28u8, 0x04u8, 0x3Eu8, 0x2Au8, 0x2Eu8, 0x20u8, 0x00u8, 0x0Cu8, 0x06u8, 0x00u8, 0x1Cu8, 0x1Fu8, 0x0Fu8];
        assert(params@ =~= seq![0x1Fu8, 0x28u8, 0x04u8, 0x3Eu8, 0x2Au8, 0x2Eu8, 0x20u8, 0x00u8, 0x0Cu8, 0x06u8, 0x00u8, 0x1Cu8, 0x1Fu8, 0x0Fu8]);
        script.raw(0xF0, &params);
        let params = [0x00u8, 0x2Du8, 0x2Fu8, 0x3Cu8, 0x6Fu8, 0x1Cu8, 0x0Bu8, 0x00u8, 0x00u8, 0x00u8, 0x07u8, 0x0Du8, 0x11u8, 0x0Fu8];
        assert(params@ =~= seq![0x00u8, 0x2Du8, 0x2Fu8, 0x3Cu8, 0x6Fu8, 0x1Cu8, 0x0Bu8, 0x00u8, 0x00u8, 0x00u8, 0x07u8, 0x0Du8, 0x11u8, 0x0Fu8]);
        script.raw(0xF1, &params);
        script.command(&SetInvertMode::new(options.invert_colors));
        script.command(&ExitSleepMode);
        script.delay_us(120000);
        script.command(&SetDisplayOn);
        assert(script.actions() =~= Self::spec_init(*options, has_reset_pin));
        (script, madctl)

    }
}

} // verus!
