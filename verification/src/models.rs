//! Display models.

use vstd::prelude::*;

use crate::dcs::{
    address_mode_bits_of, write_command, BitsPerPixel, DcsCommand, PixelFormat, SetAddressMode,
    WriteMemoryStart,
};
use crate::interface::{sent, sent_stop, sent_then, Interface, InterfacePixelFormat, Transfer};
use crate::{color_words, memory_write_transfer};
use crate::options::{ColorInversion, ModelOptions};
use crate::dcs::commands::bits_per_pixel_count;
use crate::pixelcolor::{
    trailing_ones_of_5_bit_max, trailing_ones_of_6_bit_max, ChannelBits, MAX_5_BIT, MAX_6_BIT,
};

mod gc9107;
mod gc9a01;
mod ili9341;
mod ili9342c;
mod ili934x;
mod ili9486;
mod rm67162;
mod st7789;
mod st7796;

pub use gc9107::GC9107;
pub use gc9a01::GC9A01;
pub use ili9341::{ILI9341Bgr565, ILI9341Rgb565, ILI9341Rgb666};
pub use ili9342c::{ILI9342CRgb565, ILI9342CRgb666};
pub use ili9486::{ILI9486Rgb565, ILI9486Rgb666};
pub use rm67162::RM67162;
pub use st7789::ST7789;
pub use st7796::ST7796;

verus! {

/// Endianness indicator enum for use with [Model] as an associated constant.
/// This allows us to know what format of data the display expects.
#[derive(Debug, Clone, Copy, PartialEq, Eq, Structural)]
pub enum Endianness {
    /// Big endian
    BigEndian,
    /// Little endian
    LittleEndian,
}

/// One step of a display initialization.
#[derive(Debug, Clone, PartialEq, Eq)]
pub enum InitStep {
    /// Send a command with its parameter bytes.
    Command { instruction: u8, params: Vec<u8> },
    /// Wait the given number of microseconds.
    DelayUs(u32),
    /// Drive the reset pin high (`true`) or low (`false`).
    ResetPin(bool),
}

/// What one step of a display initialization does.
pub ghost enum InitAction {
    /// Send a command with its parameter bytes.
    Command { instruction: u8, params: Seq<u8> },
    /// Wait the given number of microseconds.
    DelayUs(u32),
    /// Drive the reset pin high (`true`) or low (`false`).
    ResetPin(bool),
}

impl InitStep {
    /// What this step does.
    pub open spec fn action(self) -> InitAction {
        match self {
            InitStep::Command { instruction, params } => InitAction::Command {
                instruction,
                params: params@,
            },
            InitStep::DelayUs(us) => InitAction::DelayUs(us),
            InitStep::ResetPin(high) => InitAction::ResetPin(high),
        }
    }
}

/// What a sequence of steps does.
pub open spec fn step_actions(steps: Seq<InitStep>) -> Seq<InitAction> {
    steps.map_values(|s: InitStep| s.action())
}

/// Sending a command with the given instruction and parameter bytes.
pub open spec fn command(instruction: u8, params: Seq<u8>) -> InitAction {
    InitAction::Command { instruction, params }
}

/// Waiting the given number of microseconds.
pub open spec fn delay(us: u32) -> InitAction {
    InitAction::DelayUs(us)
}

/// Sending the address mode command for the given options.
pub open spec fn address_mode_command(options: ModelOptions) -> InitAction {
    command(0x36, seq![address_mode_bits_of(options)])
}

/// Sending the color inversion command for the given options.
pub open spec fn invert_mode_command(options: ModelOptions) -> InitAction {
    match options.invert_colors {
        ColorInversion::Normal => command(0x20, Seq::empty()),
        ColorInversion::Inverted => command(0x21, Seq::empty()),
    }
}

/// The steps of a display initialization, built up in order.
pub struct InitScript {
    steps: Vec<InitStep>,
}

impl InitScript {
    /// What the steps of the script do, in order.
    pub closed spec fn actions(&self) -> Seq<InitAction> {
        step_actions(self.steps@)
    }

    /// Creates an empty script.
    pub fn new() -> (r: Self)
        ensures
            r.actions() == Seq::<InitAction>::empty(),
    {
        let r = InitScript { steps: Vec::new() };
        assert(r.actions() =~= Seq::<InitAction>::empty());
        r
    }

    /// Appends a step.
    fn push(&mut self, step: InitStep)
        ensures
            final(self).actions() == old(self).actions().push(step.action()),
    {
        self.steps.push(step);
        assert(self.actions() =~= old(self).actions().push(step.action()));
    }

    /// Appends sending a DCS command.
    pub fn command<C: DcsCommand>(&mut self, cmd: &C)
        ensures
            final(self).actions() == old(self).actions().push(
                command(cmd.spec_instruction(), cmd.spec_params()),
            ),
    {
        let mut buffer = [0u8; 16];
        proof {
            cmd.params_fit();
        }
        let r = cmd.fill_params_buf(&mut buffer);
        let n: usize = match r {
            Ok(n) => n,
            Err(_) => 0,
        };
        let params = vstd::slice::slice_subrange(buffer.as_slice(), 0, n);
        let params = vstd::slice::slice_to_vec(params);
        self.push(InitStep::Command { instruction: cmd.instruction(), params });
    }

    /// Appends sending a raw command with the given parameter bytes.
    pub fn raw(&mut self, instruction: u8, params: &[u8])
        ensures
            final(self).actions() == old(self).actions().push(command(instruction, params@)),
    {
        let params = vstd::slice::slice_to_vec(params);
        self.push(InitStep::Command { instruction, params });
    }

    /// Appends a wait.
    pub fn delay_us(&mut self, us: u32)
        ensures
            final(self).actions() == old(self).actions().push(delay(us)),
    {
        self.push(InitStep::DelayUs(us));
    }

    /// Appends driving the reset pin.
    pub fn reset_pin(&mut self, high: bool)
        ensures
            final(self).actions() == old(self).actions().push(InitAction::ResetPin(high)),
    {
        self.push(InitStep::ResetPin(high));
    }

    /// The steps of the script.
    pub fn into_steps(self) -> (r: Vec<InitStep>)
        ensures
            step_actions(r@) == self.actions(),
    {
        self.steps
    }
}

/// Display model.
pub trait Model {
    /// The color format.
    type ColorFormat;

    /// The framebuffer size in pixels.
    ///
    /// Models written outside the verified code may leave this and
    /// [`Model::spec_init`] out; the contracts of their methods then speak of
    /// an empty framebuffer and an empty initialization, which such a model
    /// does not keep, so nothing proved of a display holds for it.
    open spec fn spec_framebuffer_size() -> (u16, u16) {
        (0, 0)
    }

    /// What initializing the display does, for the given options and depending
    /// on whether a reset pin is connected.
    open spec fn spec_init(options: ModelOptions, has_reset_pin: bool) -> Seq<InitAction> {
        Seq::empty()
    }

    /// The framebuffer size in pixels.
    fn framebuffer_size() -> (r: (u16, u16))
        ensures
            r == Self::spec_framebuffer_size(),
    ;

    /// Endianness expectation of the display Model's data, defaults to big endian
    fn endianness() -> (r: Endianness)
        ensures
            r == Endianness::BigEndian,
    {
        Endianness::BigEndian
    }

    /// The initialization of the display for this model with the given
    /// options, and the value of MADCTL that it sets.
    fn init(&mut self, options: &ModelOptions, has_reset_pin: bool) -> (r: (
        InitScript,
        SetAddressMode,
    ))
        ensures
            r.0.actions() == Self::spec_init(*options, has_reset_pin),
            r.1.bits() == address_mode_bits_of(*options),
    ;

    /// Writes pixels to the display IC via the given display interface: the
    /// memory write command, then the words of the colors.
    fn write_pixels<DI: Interface>(&mut self, di: &mut DI, colors: &[Self::ColorFormat]) -> (r:
        Result<(), DI::Error>) where Self::ColorFormat: InterfacePixelFormat<DI::Word>
        ensures
            sent(
                *old(di),
                *final(di),
                seq![
                    memory_write_transfer(),
                    Transfer::Pixels { words: color_words::<DI::Word, Self::ColorFormat>(colors@) },
                ],
                r,
            ),
    {
        let ghost start = seq![memory_write_transfer::<DI::Word>()];
        let ghost data = seq![
            Transfer::Pixels { words: color_words::<DI::Word, Self::ColorFormat>(colors@) },
        ];
        assert(start + data =~= seq![
            memory_write_transfer(),
            Transfer::Pixels { words: color_words::<DI::Word, Self::ColorFormat>(colors@) },
        ]);
        let ghost d0 = *di;
        let r1 = write_command(di, &WriteMemoryStart);
        if r1.is_err() {
            proof {
                sent_stop(d0, *di, start, data, r1);
            }
            return r1;
        }
        let ghost d1 = *di;
        let r2 = Self::ColorFormat::send_pixels(di, colors);
        proof {
            sent_then(d0, d1, *di, start, data, r1, r2);
        }
        r2
    }
}

/// The pixel format of 16 bit colors with 5, 6 and 5 bit channels.
pub fn pixel_format_565() -> (pf: PixelFormat)
    ensures
        pf.spec_as_u8() == 0x55,
{
    proof {
        trailing_ones_of_5_bit_max();
        trailing_ones_of_6_bit_max();
    }
    PixelFormat::with_all(BitsPerPixel::from_rgb_color(MAX_5_BIT, MAX_6_BIT, MAX_5_BIT))
}

/// The pixel format of 18 bit colors with three 6 bit channels.
pub fn pixel_format_666() -> (pf: PixelFormat)
    ensures
        pf.spec_as_u8() == 0x66,
{
    proof {
        trailing_ones_of_6_bit_max();
    }
    PixelFormat::with_all(BitsPerPixel::from_rgb_color(MAX_6_BIT, MAX_6_BIT, MAX_6_BIT))
}

/// The pixel format byte for pixels of `bits` bits, the same format on the
/// display and the bus interface.
pub open spec fn pixel_format_for_bits(bits: int) -> u8 {
    let bpp = choose|b: BitsPerPixel| bits_per_pixel_count(b) == bits;
    (PixelFormat { dpi: bpp, dbi: bpp }).spec_as_u8()
}

/// The pixel format byte in which colors of a format are sent: as many bits
/// per pixel as its three channels have together.
pub open spec fn color_pixel_format<C: ChannelBits>() -> u8 {
    let (r, g, b) = C::channel_bits();
    pixel_format_for_bits((r + g + b) as int)
}

/// Whether the initialization of a model sets the pixel format (command 0x3A)
/// to `format`.
pub open spec fn init_sets_pixel_format<M: Model>(
    options: ModelOptions,
    has_reset_pin: bool,
    format: u8,
) -> bool {
    exists|i: int|
        0 <= i < M::spec_init(options, has_reset_pin).len() && #[trigger] M::spec_init(
            options,
            has_reset_pin,
        )[i] == command(0x3A, seq![format])
}

/// Whether a model's initialization sets the pixel format of its color format.
pub open spec fn sets_own_pixel_format<M: Model>(options: ModelOptions, has_reset_pin: bool) -> bool
    where
        M::ColorFormat: ChannelBits,
{
    init_sets_pixel_format::<M>(options, has_reset_pin, color_pixel_format::<M::ColorFormat>())
}

/// The pixel format bytes of 16 and 18 bits per pixel.
proof fn pixel_formats_of_16_and_18_bits()
    ensures
        pixel_format_for_bits(16) == 0x55,
        pixel_format_for_bits(18) == 0x66,
{
    assert(bits_per_pixel_count(BitsPerPixel::Sixteen) == 16);
    assert(bits_per_pixel_count(BitsPerPixel::Eighteen) == 18);
}

/// Law: every model's initialization sets the pixel format in which its color
/// format is sent, so that the controller reads the pixel data as it comes:
/// 16 bits per pixel for the 5-6-5 formats and 18 bits for Rgb666.
pub proof fn init_sets_the_color_formats_pixel_format(options: ModelOptions, has_reset_pin: bool)
    ensures
        sets_own_pixel_format::<GC9107>(options, has_reset_pin),
        sets_own_pixel_format::<GC9A01>(options, has_reset_pin),
        sets_own_pixel_format::<ILI9341Rgb565>(options, has_reset_pin),
        sets_own_pixel_format::<ILI9341Rgb666>(options, has_reset_pin),
        sets_own_pixel_format::<ILI9341Bgr565>(options, has_reset_pin),
        sets_own_pixel_format::<ILI9342CRgb565>(options, has_reset_pin),
        sets_own_pixel_format::<ILI9342CRgb666>(options, has_reset_pin),
        sets_own_pixel_format::<ILI9486Rgb565>(options, has_reset_pin),
        sets_own_pixel_format::<ILI9486Rgb666>(options, has_reset_pin),
        sets_own_pixel_format::<RM67162>(options, has_reset_pin),
        sets_own_pixel_format::<ST7789>(options, has_reset_pin),
        sets_own_pixel_format::<ST7796>(options, has_reset_pin),
{
    pixel_formats_of_16_and_18_bits();
    let (o, r) = (options, has_reset_pin);
    assert(GC9107::spec_init(o, r)[11] == command(0x3A, seq![0x55u8]));
    let reset = if r {
        seq![InitAction::ResetPin(false), delay(10), InitAction::ResetPin(true)]
    } else {
        seq![command(0x01, Seq::empty())]
    };
    let k = (reset.len() + 1 + gc9a01::gc9a01_setup_1(o).len() + 5) as int;
    assert(GC9A01::spec_init(o, r)[k] == command(0x3A, seq![0x55u8]));
    assert(ILI9341Rgb565::spec_init(o, r)[4] == command(0x3A, seq![0x55u8]));
    assert(ILI9341Rgb666::spec_init(o, r)[4] == command(0x3A, seq![0x66u8]));
    assert(ILI9341Bgr565::spec_init(o, r)[4] == command(0x3A, seq![0x55u8]));
    assert(ILI9342CRgb565::spec_init(o, r)[4] == command(0x3A, seq![0x55u8]));
    assert(ILI9342CRgb666::spec_init(o, r)[4] == command(0x3A, seq![0x66u8]));
    assert(ILI9486Rgb565::spec_init(o, r)[2] == command(0x3A, seq![0x55u8]));
    assert(ILI9486Rgb666::spec_init(o, r)[2] == command(0x3A, seq![0x66u8]));
    assert(RM67162::spec_init(o, r)[14] == command(0x3A, seq![0x55u8]));
    assert(ST7789::spec_init(o, r)[5] == command(0x3A, seq![0x55u8]));
    assert(ST7796::spec_init(o, r)[5] == command(0x3A, seq![0x55u8]));
}

} // verus!
