//! ILI9341 display models.

use vstd::prelude::*;

use super::ili934x::{ili934x_init, init_common};
use super::{pixel_format_565, pixel_format_666, InitAction, InitScript, Model};
use crate::dcs::SetAddressMode;
use crate::options::ModelOptions;
use crate::pixelcolor::{Bgr565, Rgb565, Rgb666};

verus! {

/// ILI9341 display in Rgb565 color mode.
pub struct ILI9341Rgb565;

/// ILI9341 display in Rgb666 color mode.
pub struct ILI9341Rgb666;

/// ILI9341 display in Bgr565 color mode.
pub struct ILI9341Bgr565;

impl Model for ILI9341Rgb565 {
    type ColorFormat = Rgb565;

    open spec fn spec_framebuffer_size() -> (u16, u16) {
        (240, 320)
    }

    open spec fn spec_init(options: ModelOptions, has_reset_pin: bool) -> Seq<InitAction> {
        ili934x_init(options, 0x55)
    }

    fn framebuffer_size() -> (r: (u16, u16)) {
        (240, 320)
    }

    fn init(&mut self, options: &ModelOptions, has_reset_pin: bool) -> (r: (
        InitScript,
        SetAddressMode,
    )) {
        init_common(options, pixel_format_565())
    }
}

impl Model for ILI9341Rgb666 {
    type ColorFormat = Rgb666;

    open spec fn spec_framebuffer_size() -> (u16, u16) {
        (240, 320)
    }

    open spec fn spec_init(options: ModelOptions, has_reset_pin: bool) -> Seq<InitAction> {
        ili934x_init(options, 0x66)
    }

    fn framebuffer_size() -> (r: (u16, u16)) {
        (240, 320)
    }

    fn init(&mut self, options: &ModelOptions, has_reset_pin: bool) -> (r: (
        InitScript,
        SetAddressMode,
    )) {
        init_common(options, pixel_format_666())
    }
}

impl Model for ILI9341Bgr565 {
    type ColorFormat = Bgr565;

    open spec fn spec_framebuffer_size() -> (u16, u16) {
        (240, 320)
    }

    open spec fn spec_init(options: ModelOptions, has_reset_pin: bool) -> Seq<InitAction> {
        ili934x_init(options, 0x55)
    }

    fn framebuffer_size() -> (r: (u16, u16)) {
        (240, 320)
    }

    fn init(&mut self, options: &ModelOptions, has_reset_pin: bool) -> (r: (
        InitScript,
        SetAddressMode,
    )) {
        init_common(options, pixel_format_565())
    }
}

} // verus!
