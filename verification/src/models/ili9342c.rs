//! ILI9342C display models.

use vstd::prelude::*;

use super::ili934x::{ili934x_init, init_common};
use super::{pixel_format_565, pixel_format_666, InitAction, InitScript, Model};
use crate::dcs::SetAddressMode;
use crate::options::ModelOptions;
use crate::pixelcolor::{Rgb565, Rgb666};

verus! {

/// ILI9342C display in Rgb565 color mode.
pub struct ILI9342CRgb565;

/// ILI9342C display in Rgb666 color mode.
pub struct ILI9342CRgb666;

impl Model for ILI9342CRgb565 {
    type ColorFormat = Rgb565;

    open spec fn spec_framebuffer_size() -> (u16, u16) {
        (320, 240)
    }

    open spec fn spec_init(options: ModelOptions, has_reset_pin: bool) -> Seq<InitAction> {
        ili934x_init(options, 0x55)
    }

    fn framebuffer_size() -> (r: (u16, u16)) {
        (320, 240)
    }

    fn init(&mut self, options: &ModelOptions, has_reset_pin: bool) -> (r: (
        InitScript,
        SetAddressMode,
    )) {
        init_common(options, pixel_format_565())
    }
}

impl Model for ILI9342CRgb666 {
    type ColorFormat = Rgb666;

    open spec fn spec_framebuffer_size() -> (u16, u16) {
        (320, 240)
    }

    open spec fn spec_init(options: ModelOptions, has_reset_pin: bool) -> Seq<InitAction> {
        ili934x_init(options, 0x66)
    }

    fn framebuffer_size() -> (r: (u16, u16)) {
        (320, 240)
    }

    fn init(&mut self, options: &ModelOptions, has_reset_pin: bool) -> (r: (
        InitScript,
        SetAddressMode,
    )) {
        init_common(options, pixel_format_666())
    }
}

} // verus!
