//! GC9A01 display model.

use vstd::prelude::*;

use super::{
    address_mode_command, command, delay, invert_mode_command, pixel_format_565,
    InitAction, InitScript, Model,
};
use crate::dcs::{ExitSleepMode, PixelFormat, SetAddressMode, SetDisplayOn, SetInvertMode, SetPixelFormat, SoftReset, address_mode_bits_of};
use crate::options::ModelOptions;
use crate::pixelcolor::{Rgb565};

verus! {

/// GC9A01 display in Rgb565 color mode.
pub struct GC9A01;


/// Register setup part 1 of the GC9A01 initialization.
pub open spec fn gc9a01_setup_1(options: ModelOptions) -> Seq<InitAction> {
    seq![
        command(0xEF, Seq::empty()),
        command(0xEB, seq![0x14u8]),
        command(0xFE, Seq::empty()),
        command(0xEF, Seq::empty()),
        command(0xEB, seq![0x14u8]),
        command(0x84, seq![0x40u8]),
        command(0x85, seq![0xFFu8]),
        command(0x86, seq![0xFFu8]),
        command(0x87, seq![0xFFu8]),
        command(0x88, seq![0x0Au8]),
        command(0x89, seq![0x21u8]),
        command(0x8A, seq![0x00u8]),
    ] + seq![
        command(0x8B, seq![0x80u8]),
        command(0x8C, seq![0x01u8]),
    ]
}

fn push_gc9a01_setup_1(script: &mut InitScript, options: &ModelOptions, madctl: &SetAddressMode, pixel_format: PixelFormat)
    requires
        madctl.bits() == address_mode_bits_of(*options),
        pixel_format.spec_as_u8() == 0x55,
    ensures
        final(script).actions() == old(script).actions() + gc9a01_setup_1(*options),
{
    let ghost start = script.actions();
    let params: [u8; 0] = [];
    assert(params@ =~= Seq::<u8>::empty());
    script.raw(0xEF, &params);
    let params = [0x14u8];
    assert(params@ =~= seq![0x14u8]);
    script.raw(0xEB, &params);
    let params: [u8; 0] = [];
    assert(params@ =~= Seq::<u8>::empty());
    script.raw(0xFE, &params);
    let params: [u8; 0] = [];
    assert(params@ =~= Seq::<u8>::empty());
    script.raw(0xEF, &params);
    let params = [0x14u8];
    assert(params@ =~= seq![0x14u8]);
    script.raw(0xEB, &params);
    let params = [0x40u8];
    assert(params@ =~= seq![0x40u8]);
    script.raw(0x84, &params);
    let params = [0xFFu8];
    assert(params@ =~= seq![0xFFu8]);
    script.raw(0x85, &params);
    let params = [0xFFu8];
    assert(params@ =~= seq![0xFFu8]);
    script.raw(0x86, &params);
    let params = [0xFFu8];
    assert(params@ =~= seq![0xFFu8]);
    script.raw(0x87, &params);
    let params = [0x0Au8];
    assert(params@ =~= seq![0x0Au8]);
    script.raw(0x88, &params);
    let params = [0x21u8];
    assert(params@ =~= seq![0x21u8]);
    script.raw(0x89, &params);
    let params = [0x00u8];
    assert(params@ =~= seq![0x00u8]);
    script.raw(0x8A, &params);
    let params = [0x80u8];
    assert(params@ =~= seq![0x80u8]);
    script.raw(0x8B, &params);
    let params = [0x01u8];
    assert(params@ =~= seq![0x01u8]);
    script.raw(0x8C, &params);
    assert(script.actions() =~= start + gc9a01_setup_1(*options));
}

/// Register setup part 2 of the GC9A01 initialization.
pub open spec fn gc9a01_setup_2(options: ModelOptions) -> Seq<InitAction> {
    seq![
        command(0x8D, seq![0x01u8]),
        command(0x8E, seq![0xFFu8]),
        command(0x8F, seq![0xFFu8]),
        command(0xB6, seq![0x00u8, 0x20u8]),
        address_mode_command(options),
        command(0x3A, seq![0x55u8]),
        command(0x90, seq![0x08u8, 0x08u8, 0x08u8, 0x08u8]),
        command(0xBD, seq![0x06u8]),
        command(0xBC, seq![0x00u8]),
        command(0xFF, seq![0x60u8, 0x01u8, 0x04u8]),
        command(0xC3, seq![0x13u8]),
        command(0xC4, seq![0x13u8]),
    ] + seq![
        command(0xC9, seq![0x22u8]),
        command(0xBE, seq![0x11u8]),
    ]
}

fn push_gc9a01_setup_2(script: &mut InitScript, options: &ModelOptions, madctl: &SetAddressMode, pixel_format: PixelFormat)
    requires
        madctl.bits() == address_mode_bits_of(*options),
        pixel_format.spec_as_u8() == 0x55,
    ensures
        final(script).actions() == old(script).actions() + gc9a01_setup_2(*options),
{
    let ghost start = script.actions();
    let params = [0x01u8];
    assert(params@ =~= seq![0x01u8]);
    script.raw(0x8D, &params);
    let params = [0xFFu8];
    assert(params@ =~= seq![0xFFu8]);
    script.raw(0x8E, &params);
    let params = [0xFFu8];
    assert(params@ =~= seq![0xFFu8]);
    script.raw(0x8F, &params);
    let params = [0x00u8, 0x20u8];
    assert(params@ =~= seq![0x00u8, 0x20u8]);
    script.raw(0xB6, &params);
    script.command(madctl);
    script.command(&SetPixelFormat::new(pixel_format));
    let params = [0x08u8, 0x08u8, 0x08u8, 0x08u8];
    assert(params@ =~= seq![0x08u8, 0x08u8, 0x08u8, 0x08u8]);
    script.raw(0x90, &params);
    let params = [0x06u8];
    assert(params@ =~= seq![0x06u8]);
    script.raw(0xBD, &params);
    let params = [0x00u8];
    assert(params@ =~= seq![0x00u8]);
    script.raw(0xBC, &params);
    let params = [0x60u8, 0x01u8, 0x04u8];
    assert(params@ =~= seq![0x60u8, 0x01u8, 0x04u8]);
    script.raw(0xFF, &params);
    let params = [0x13u8];
    assert(params@ =~= seq![0x13u8]);
    script.raw(0xC3, &params);
    let params = [0x13u8];
    assert(params@ =~= seq![0x13u8]);
    script.raw(0xC4, &params);
    let params = [0x22u8];
    assert(params@ =~= seq![0x22u8]);
    script.raw(0xC9, &params);
    let params = [0x11u8];
    assert(params@ =~= seq![0x11u8]);
    script.raw(0xBE, &params);
    assert(script.actions() =~= start + gc9a01_setup_2(*options));
}

/// Register setup part 3 of the GC9A01 initialization.
pub open spec fn gc9a01_setup_3(options: ModelOptions) -> Seq<InitAction> {
    seq![
        command(0xE1, seq![0x10u8, 0x0Eu8]),
        command(0xDF, seq![0x20u8, 0x0Cu8, 0x02u8]),
        command(0xF0, seq![0x45u8, 0x09u8, 0x08u8, 0x08u8, 0x26u8, 0x2Au8]),
        command(0xF1, seq![0x43u8, 0x70u8, 0x72u8, 0x36u8, 0x37u8, 0x6Fu8]),
        command(0xF2, seq![0x45u8, 0x09u8, 0x08u8, 0x08u8, 0x26u8, 0x2Au8]),
        command(0xF3, seq![0x43u8, 0x70u8, 0x72u8, 0x36u8, 0x37u8, 0x6Fu8]),
        command(0xED, seq![0x18u8, 0x0Bu8]),
        command(0xAE, seq![0x77u8]),
        command(0xCD, seq![0x63u8]),
        command(0x70, seq![0x07u8, 0x07u8, 0x04u8, 0x0Eu8, 0x0Fu8, 0x09u8, 0x07u8, 0x08u8, 0x03u8]),
        command(0xE8, seq![0x34u8]),
        command(0x62, seq![0x18u8, 0x0Du8, 0x71u8, 0xEDu8, 0x70u8, 0x70u8, 0x18u8, 0x0Fu8, 0x71u8, 0xEFu8, 0x70u8, 0x70u8]),
    ] + seq![
        command(0x63, seq![0x18u8, 0x11u8, 0x71u8, 0xF1u8, 0x70u8, 0x70u8, 0x18u8, 0x13u8, 0x71u8, 0xF3u8, 0x70u8, 0x70u8]),
        command(0x64, seq![0x28u8, 0x29u8, 0xF1u8, 0x01u8, 0xF1u8, 0x00u8, 0x07u8]),
    ]
}

fn push_gc9a01_setup_3(script: &mut InitScript, options: &ModelOptions, madctl: &SetAddressMode, pixel_format: PixelFormat)
    requires
        madctl.bits() == address_mode_bits_of(*options),
        pixel_format.spec_as_u8() == 0x55,
    ensures
        final(script).actions() == old(script).actions() + gc9a01_setup_3(*options),
{
    let ghost start = script.actions();
    let params = [0x10u8, 0x0Eu8];
    assert(params@ =~= seq![0x10u8, 0x0Eu8]);
    script.raw(0xE1, &params);
    let params = [0x20u8, 0x0Cu8, 0x02u8];
    assert(params@ =~= seq![0x20u8, 0x0Cu8, 0x02u8]);
    script.raw(0xDF, &params);
    let params = [0x45u8, 0x09u8, 0x08u8, 0x08u8, 0x26u8, 0x2Au8];
    assert(params@ =~= seq![0x45u8, 0x09u8, 0x08u8, 0x08u8, 0x26u8, 0x2Au8]);
    script.raw(0xF0, &params);
    let params = [0x43u8, 0x70u8, 0x72u8, 0x36u8, 0x37u8, 0x6Fu8];
    assert(params@ =~= seq![0x43u8, 0x70u8, 0x72u8, 0x36u8, 0x37u8, 0x6Fu8]);
    script.raw(0xF1, &params);
    let params = [0x45u8, 0x09u8, 0x08u8, 0x08u8, 0x26u8, 0x2Au8];
    assert(params@ =~= seq![0x45u8, 0x09u8, 0x08u8, 0x08u8, 0x26u8, 0x2Au8]);
    script.raw(0xF2, &params);
    let params = [0x43u8, 0x70u8, 0x72u8, 0x36u8, 0x37u8, 0x6Fu8];
    assert(params@ =~= seq![0x43u8, 0x70u8, 0x72u8, 0x36u8, 0x37u8, 0x6Fu8]);
    script.raw(0xF3, &params);
    let params = [0x18u8, 0x0Bu8];
    assert(params@ =~= seq![0x18u8, 0x0Bu8]);
    script.raw(0xED, &params);
    let params = [0x77u8];
    assert(params@ =~= seq![0x77u8]);
    script.raw(0xAE, &params);
    let params = [0x63u8];
    assert(params@ =~= seq![0x63u8]);
    script.raw(0xCD, &params);
    let params = [0x07u8, 0x07u8, 0x04u8, 0x0Eu8, 0x0Fu8, 0x09u8, 0x07u8, 0x08u8, 0x03u8];
    assert(params@ =~= seq![0x07u8, 0x07u8, 0x04u8, 0x0Eu8, 0x0Fu8, 0x09u8, 0x07u8, 0x08u8, 0x03u8]);
    script.raw(0x70, &params);
    let params = [0x34u8];
    assert(params@ =~= seq![0x34u8]);
    script.raw(0xE8, &params);
    let params = [0x18u8, 0x0Du8, 0x71u8, 0xEDu8, 0x70u8, 0x70u8, 0x18u8, 0x0Fu8, 0x71u8, 0xEFu8, 0x70u8, 0x70u8];
    assert(params@ =~= seq![0x18u8, 0x0Du8, 0x71u8, 0xEDu8, 0x70u8, 0x70u8, 0x18u8, 0x0Fu8, 0x71u8, 0xEFu8, 0x70u8, 0x70u8]);
    script.raw(0x62, &params);
    let params = [0x18u8, 0x11u8, 0x71u8, 0xF1u8, 0x70u8, 0x70u8, 0x18u8, 0x13u8, 0x71u8, 0xF3u8, 0x70u8, 0x70u8];
    assert(params@ =~= seq![0x18u8, 0x11u8, 0x71u8, 0xF1u8, 0x70u8, 0x70u8, 0x18u8, 0x13u8, 0x71u8, 0xF3u8, 0x70u8, 0x70u8]);
    script.raw(0x63, &params);
    let params = [0x28u8, 0x29u8, 0xF1u8, 0x01u8, 0xF1u8, 0x00u8, 0x07u8];
    assert(params@ =~= seq![0x28u8, 0x29u8, 0xF1u8, 0x01u8, 0xF1u8, 0x00u8, 0x07u8]);
    script.raw(0x64, &params);
    assert(script.actions() =~= start + gc9a01_setup_3(*options));
}

/// Register setup part 4 of the GC9A01 initialization.
pub open spec fn gc9a01_setup_4(options: ModelOptions) -> Seq<InitAction> {
    seq![
        command(0x66, seq![0x3Cu8, 0x00u8, 0xCDu8, 0x67u8, 0x45u8, 0x45u8, 0x10u8, 0x00u8, 0x00u8, 0x00u8]),
        command(0x67, seq![0x00u8, 0x3Cu8, 0x00u8, 0x00u8, 0x00u8, 0x01u8, 0x54u8, 0x10u8, 0x32u8, 0x98u8]),
        command(0x74, seq![0x10u8, 0x85u8, 0x80u8, 0x00u8, 0x00u8, 0x4Eu8, 0x00u8]),
        command(0x98, seq![0x3Eu8, 0x07u8]),
        invert_mode_command(options),
        command(0x11, Seq::empty()),
        delay(120000),
        command(0x29, Seq::empty()),
    ]
}

fn push_gc9a01_setup_4(script: &mut InitScript, options: &ModelOptions, madctl: &SetAddressMode, pixel_format: PixelFormat)
    requires
        madctl.bits() == address_mode_bits_of(*options),
        pixel_format.spec_as_u8() == 0x55,
    ensures
        final(script).actions() == old(script).actions() + gc9a01_setup_4(*options),
{
    let ghost start = script.actions();
    let params = [0x3Cu8, 0x00u8, 0xCDu8, 0x67u8, 0x45u8, 0x45u8, 0x10u8, 0x00u8, 0x00u8, 0x00u8];
    assert(params@ =~= seq![0x3Cu8, 0x00u8, 0xCDu8, 0x67u8, 0x45u8, 0x45u8, 0x10u8, 0x00u8, 0x00u8, 0x00u8]);
    script.raw(0x66, &params);
    let params = [0x00u8, 0x3Cu8, 0x00u8, 0x00u8, 0x00u8, 0x01u8, 0x54u8, 0x10u8, 0x32u8, 0x98u8];
    assert(params@ =~= seq![0x00u8, 0x3Cu8, 0x00u8, 0x00u8, 0x00u8, 0x01u8, 0x54u8, 0x10u8, 0x32u8, 0x98u8]);
    script.raw(0x67, &params);
    let params = [0x10u8, 0x85u8, 0x80u8, 0x00u8, 0x00u8, 0x4Eu8, 0x00u8];
    assert(params@ =~= seq![0x10u8, 0x85u8, 0x80u8, 0x00u8, 0x00u8, 0x4Eu8, 0x00u8]);
    script.raw(0x74, &params);
    let params = [0x3Eu8, 0x07u8];
    assert(params@ =~= seq![0x3Eu8, 0x07u8]);
    script.raw(0x98, &params);
    script.command(&SetInvertMode::new(options.invert_colors));
    script.command(&ExitSleepMode);
    script.delay_us(120000);
    script.command(&SetDisplayOn);
    assert(script.actions() =~= start + gc9a01_setup_4(*options));
}
impl Model for GC9A01 {
    type ColorFormat = Rgb565;

    open spec fn spec_framebuffer_size() -> (u16, u16) {
        (240, 240)
    }

    open spec fn spec_init(options: ModelOptions, has_reset_pin: bool) -> Seq<InitAction> {
        let reset = if has_reset_pin {
            seq![
                InitAction::ResetPin(false),
                delay(10),
                InitAction::ResetPin(true),
            ]
        } else {
            seq![
                command(0x01, Seq::empty()),
            ]
        };
        reset + seq![delay(200000)] + gc9a01_setup_1(options) + gc9a01_setup_2(options) + gc9a01_setup_3(options) + gc9a01_setup_4(options)
    }

    fn framebuffer_size() -> (r: (u16, u16)) {
        (240, 240)
    }

    fn init(&mut self, options: &ModelOptions, has_reset_pin: bool) -> (r: (
        InitScript,
        SetAddressMode,
    )) {
        let madctl = SetAddressMode::from_options(options);
        let pixel_format = pixel_format_565();
        let mut script = InitScript::new();
        if has_reset_pin {
            script.reset_pin(false);
            script.delay_us(10);
            script.reset_pin(true);
        } else {
            script.command(&SoftReset);
        }
        script.delay_us(200000);
        push_gc9a01_setup_1(&mut script, options, &madctl, pixel_format);
        push_gc9a01_setup_2(&mut script, options, &madctl, pixel_format);
        push_gc9a01_setup_3(&mut script, options, &madctl, pixel_format);
        push_gc9a01_setup_4(&mut script, options, &madctl, pixel_format);
        assert(script.actions() =~= Self::spec_init(*options, has_reset_pin));
        (script, madctl)

    }
}

} // verus!
