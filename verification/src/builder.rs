//! [super::Display] builder module

use vstd::prelude::*;

use crate::dcs::{address_mode_bits_of, SetAddressMode};
use crate::interface::{sent, sent_nothing, sent_then, Interface, Transfer};
use crate::models::{step_actions, InitStep, Model, GC9A01, ILI9342CRgb565, ILI9342CRgb666, ST7789};
use crate::options::{
    ColorInversion, ColorOrder, HorizontalRefreshOrder, ModelOptions, Orientation, RefreshOrder,
    VerticalRefreshOrder,
};
use crate::Display;

verus! {

/// The options a builder starts with: the defaults, with the display area
/// covering the whole framebuffer.
pub open spec fn default_options(framebuffer_size: (u16, u16)) -> ModelOptions {
    ModelOptions {
        color_order: ColorOrder::Rgb,
        orientation: Orientation::Portrait(false),
        invert_colors: ColorInversion::Normal,
        refresh_order: RefreshOrder {
            vertical: VerticalRefreshOrder::TopToBottom,
            horizontal: HorizontalRefreshOrder::LeftToRight,
        },
        display_size: framebuffer_size,
        display_offset: (0, 0),
    }
}

/// Builder for [Display] instances.
///
/// Exposes all possible display options.
pub struct Builder<DI, MODEL> {
    di: DI,
    model: MODEL,
    options: ModelOptions,
}

impl<DI, MODEL: Model> Builder<DI, MODEL> {
    /// The display interface.
    pub closed spec fn interface(&self) -> DI {
        self.di
    }

    /// The display model.
    pub closed spec fn model(&self) -> MODEL {
        self.model
    }

    /// The options the display will be initialized with.
    pub closed spec fn model_options(&self) -> ModelOptions {
        self.options
    }

    ///
    /// Constructs a new builder for given [Model].
    ///
    pub fn new(model: MODEL, di: DI) -> (r: Self)
        ensures
            r.interface() == di,
            r.model() == model,
            r.model_options() == default_options(MODEL::spec_framebuffer_size()),
    {
        Self { di, model, options: ModelOptions::full_size(MODEL::framebuffer_size()) }
    }

    ///
    /// Sets the invert color flag
    ///
    pub fn with_invert_colors(self, color_inversion: ColorInversion) -> (r: Self)
        ensures
            r.interface() == self.interface(),
            r.model() == self.model(),
            r.model_options() == (ModelOptions {
                invert_colors: color_inversion,
                ..self.model_options()
            }),
    {
        let mut options = self.options;
        options.invert_colors = color_inversion;
        Builder { options, ..self }
    }

    ///
    /// Sets the [ColorOrder]
    ///
    pub fn with_color_order(self, color_order: ColorOrder) -> (r: Self)
        ensures
            r.interface() == self.interface(),
            r.model() == self.model(),
            r.model_options() == (ModelOptions { color_order, ..self.model_options() }),
    {
        let mut options = self.options;
        options.color_order = color_order;
        Builder { options, ..self }
    }

    ///
    /// Sets the [Orientation]
    ///
    pub fn with_orientation(self, orientation: Orientation) -> (r: Self)
        ensures
            r.interface() == self.interface(),
            r.model() == self.model(),
            r.model_options() == (ModelOptions { orientation, ..self.model_options() }),
    {
        let mut options = self.options;
        options.orientation = orientation;
        Builder { options, ..self }
    }

    ///
    /// Sets refresh order
    ///
    pub fn with_refresh_order(self, refresh_order: RefreshOrder) -> (r: Self)
        ensures
            r.interface() == self.interface(),
            r.model() == self.model(),
            r.model_options() == (ModelOptions { refresh_order, ..self.model_options() }),
    {
        let mut options = self.options;
        options.refresh_order = refresh_order;
        Builder { options, ..self }
    }

    ///
    /// Sets the display size
    ///
    pub fn with_display_size(self, width: u16, height: u16) -> (r: Self)
        ensures
            r.interface() == self.interface(),
            r.model() == self.model(),
            r.model_options() == (ModelOptions {
                display_size: (width, height),
                ..self.model_options()
            }),
    {
        let mut options = self.options;
        options.display_size = (width, height);
        Builder { options, ..self }
    }

    ///
    /// Sets the display offset
    ///
    pub fn with_display_offset(self, x: u16, y: u16) -> (r: Self)
        ensures
            r.interface() == self.interface(),
            r.model() == self.model(),
            r.model_options() == (ModelOptions { display_offset: (x, y), ..self.model_options() }),
    {
        let mut options = self.options;
        options.display_offset = (x, y);
        Builder { options, ..self }
    }

    /// The steps that initialize the display with the configured options, and
    /// the address mode that they set. Commands go to the display interface,
    /// waits and the reset pin are the caller's.
    pub fn init_steps(&mut self, has_reset_pin: bool) -> (r: (Vec<InitStep>, SetAddressMode))
        ensures
            final(self).interface() == old(self).interface(),
            final(self).model_options() == old(self).model_options(),
            step_actions(r.0@) == MODEL::spec_init(old(self).model_options(), has_reset_pin),
            r.1.bits() == address_mode_bits_of(old(self).model_options()),
    {
        let (script, madctl) = self.model.init(&self.options, has_reset_pin);
        (script.into_steps(), madctl)
    }

    /// Consumes the builder into an initialized [Display] that uses the given
    /// address mode and reset pin.
    pub fn into_display<RST>(self, madctl: SetAddressMode, rst: Option<RST>) -> (r: Display<
        DI,
        MODEL,
        RST,
    >)
        ensures
            r.interface() == self.interface(),
            r.model() == self.model(),
            r.reset_pin() == rst,
            r.model_options() == self.model_options(),
            r.address_mode() == madctl,
            !r.asleep(),
    {
        Display::from_parts(self.di, self.model, rst, self.options, madctl)
    }
}

impl<DI: Interface, MODEL: Model> Builder<DI, MODEL> {
    /// Sends one initialization command to the display interface.
    pub fn send_init_command(&mut self, instruction: u8, params: &[u8]) -> (r: Result<
        (),
        DI::Error,
    >)
        ensures
            final(self).model() == old(self).model(),
            final(self).model_options() == old(self).model_options(),
            sent(
                old(self).interface(),
                final(self).interface(),
                seq![Transfer::Command { instruction, params: params@ }],
                r,
            ),
    {
        self.di.send_command(instruction, params)
    }

    /// Sends the initialization commands that follow one another from step
    /// `from` on, up to the first step that is not a command or the end of the
    /// steps, and returns where it stopped. The first command that fails stops
    /// the run: its error is returned with the position after it.
    pub fn send_init_commands(&mut self, steps: &[InitStep], from: usize) -> (r: (
        usize,
        Result<(), DI::Error>,
    ))
        requires
            from <= steps@.len(),
        ensures
            final(self).model() == old(self).model(),
            final(self).model_options() == old(self).model_options(),
            from <= r.0 <= steps@.len(),
            forall|i: int| from <= i < r.0 ==> (#[trigger] steps@[i]) is Command,
            r.1 is Ok ==> r.0 == steps@.len() || !(steps@[r.0 as int] is Command),
            sent(
                old(self).interface(),
                final(self).interface(),
                step_commands(steps@.subrange(from as int, r.0 as int)),
                r.1,
            ),
    {
        let mut i: usize = from;
        proof {
            assert(steps@.subrange(from as int, from as int).map_values(
                |s: InitStep| step_command::<DI::Word>(s),
            ) =~= Seq::<Transfer<DI::Word>>::empty());
            sent_nothing(self.di);
        }
        while i < steps.len()
            invariant
                from <= i <= steps@.len(),
                self.model == old(self).model,
                self.options == old(self).options,
                forall|j: int| from <= j < i ==> (#[trigger] steps@[j]) is Command,
                sent(
                    old(self).di,
                    self.di,
                    step_commands(steps@.subrange(from as int, i as int)),
                    Ok(()),
                ),
            decreases steps@.len() - i,
        {
            let ghost before = self.di;
            let ghost done = step_commands::<DI::Word>(steps@.subrange(from as int, i as int));
            proof {
                assert(steps@.subrange(from as int, i + 1) =~= steps@.subrange(
                    from as int,
                    i as int,
                ).push(steps@[i as int]));
                assert(step_commands::<DI::Word>(steps@.subrange(from as int, i + 1)) =~= done
                    + seq![step_command::<DI::Word>(steps@[i as int])]);
            }
            match &steps[i] {
                InitStep::Command { instruction, params } => {
                    let r = self.send_init_command(*instruction, params.as_slice());
                    proof {
                        sent_then(
                            old(self).di,
                            before,
                            self.di,
                            done,
                            seq![step_command::<DI::Word>(steps@[i as int])],
                            Ok(()),
                            r,
                        );
                    }
                    if r.is_err() {
                        return (i + 1, r);
                    }
                },
                _ => {
                    return (i, Ok(()));
                },
            }
            i = i + 1;
        }
        (i, Ok(()))
    }
}

/// The transfer that an initialization command step makes.
pub open spec fn step_command<W>(step: InitStep) -> Transfer<W>
    recommends
        step is Command,
{
    match step {
        InitStep::Command { instruction, params } => Transfer::Command {
            instruction,
            params: params@,
        },
        _ => Transfer::Command { instruction: 0, params: Seq::empty() },
    }
}

/// The transfers that a run of initialization command steps makes, in order.
pub open spec fn step_commands<W>(steps: Seq<InitStep>) -> Seq<Transfer<W>> {
    steps.map_values(|s: InitStep| step_command::<W>(s))
}

impl<DI> Builder<DI, ST7789> {
    /// Creates a new display builder for a ST7789 display in Rgb565 color mode.
    ///
    /// The default framebuffer size and display size is 240x320 pixels.
    pub fn st7789(di: DI) -> (r: Self)
        ensures
            r.interface() == di,
            r.model_options() == default_options((240, 320)),
    {
        Self::new(ST7789, di)
    }

    /// Creates a new display builder for the pico1 variant of a ST7789 display in Rgb565 color
    /// mode.
    ///
    /// The pico1 variant uses a display size of 135x240, an offset of (52, 40)
    /// and inverted colors.
    pub fn st7789_pico1(di: DI) -> (r: Self)
        ensures
            r.interface() == di,
            r.model_options() == (ModelOptions {
                invert_colors: ColorInversion::Inverted,
                display_size: (135, 240),
                display_offset: (52, 40),
                ..default_options((240, 320))
            }),
    {
        Self::new(ST7789, di).with_display_size(135, 240).with_display_offset(52, 40).with_invert_colors(
            ColorInversion::Inverted,
        )
    }
}

impl<DI> Builder<DI, GC9A01> {
    /// Creates a new display builder for GC9A01 displays in Rgb565 color mode.
    ///
    /// The default framebuffer size and display size is 240x240 pixels.
    pub fn gc9a01(di: DI) -> (r: Self)
        ensures
            r.interface() == di,
            r.model_options() == default_options((240, 240)),
    {
        Self::new(GC9A01, di)
    }
}

impl<DI> Builder<DI, ILI9342CRgb565> {
    /// Creates a new display builder for an ILI9342C display in Rgb565 color mode.
    ///
    /// The default framebuffer size and display size is 320x240 pixels.
    ///
    /// # Limitations
    ///
    /// The Rgb565 color mode is not supported for displays with SPI connection.
    pub fn ili9342c_rgb565(di: DI) -> (r: Self)
        ensures
            r.interface() == di,
            r.model_options() == default_options((320, 240)),
    {
        Self::new(ILI9342CRgb565, di)
    }
}

impl<DI> Builder<DI, ILI9342CRgb666> {
    /// Creates a new display builder for an ILI9342C display in Rgb666 color mode.
    ///
    /// The default framebuffer size and display size is 320x240 pixels.
    pub fn ili9342c_rgb666(di: DI) -> (r: Self)
        ensures
            r.interface() == di,
            r.model_options() == default_options((320, 240)),
    {
        Self::new(ILI9342CRgb666, di)
    }
}

} // verus!
