//! ST7796 display model.

use vstd::prelude::*;

use super::{InitAction, InitScript, Model, ST7789};
use crate::dcs::SetAddressMode;
use crate::options::ModelOptions;
use crate::pixelcolor::Rgb565;

verus! {

/// ST7796 display in Rgb565 color mode.
pub struct ST7796;

impl Model for ST7796 {
    type ColorFormat = Rgb565;

    open spec fn spec_framebuffer_size() -> (u16, u16) {
        (320, 480)
    }

    open spec fn spec_init(options: ModelOptions, has_reset_pin: bool) -> Seq<InitAction> {
        <ST7789 as Model>::spec_init(options, has_reset_pin)
    }

    fn framebuffer_size() -> (r: (u16, u16)) {
        (320, 480)
    }

    fn init(&mut self, options: &ModelOptions, has_reset_pin: bool) -> (r: (
        InitScript,
        SetAddressMode,
    )) {
        ST7789.init(options, has_reset_pin)
    }
}

} // verus!
