//! DCS commands of the manufacturer independent user command set.

use vstd::prelude::*;

use super::set_column_address::write_u16_pair;
use super::{be_bytes, DcsCommand};
use crate::error::Error;
use crate::options::TearingEffect;

verus! {

/// A buffer after a command without parameters was encoded into it.
proof fn no_params_written(buffer: Seq<u8>)
    ensures
        buffer.subrange(0, buffer.len() as int) =~= buffer,
{
}

/// Software reset.
#[derive(Debug, Clone, Copy, PartialEq, Eq, Structural)]
pub struct SoftReset;

impl DcsCommand for SoftReset {
    proof fn params_fit(&self) {
    }

    open spec fn spec_instruction(&self) -> u8 {
        0x01
    }

    open spec fn spec_params(&self) -> Seq<u8> {
        Seq::empty()
    }

    fn instruction(&self) -> (i: u8) {
        0x01
    }

    fn fill_params_buf(&self, buffer: &mut [u8]) -> (r: Result<usize, Error>) {
        proof {
            no_params_written(buffer@);
        }
        Ok(0)
    }
}

/// Enter sleep mode.
#[derive(Debug, Clone, Copy, PartialEq, Eq, Structural)]
pub struct EnterSleepMode;

impl DcsCommand for EnterSleepMode {
    proof fn params_fit(&self) {
    }

    open spec fn spec_instruction(&self) -> u8 {
        0x10
    }

    open spec fn spec_params(&self) -> Seq<u8> {
        Seq::empty()
    }

    fn instruction(&self) -> (i: u8) {
        0x10
    }

    fn fill_params_buf(&self, buffer: &mut [u8]) -> (r: Result<usize, Error>) {
        proof {
            no_params_written(buffer@);
        }
        Ok(0)
    }
}

/// Exit sleep mode.
#[derive(Debug, Clone, Copy, PartialEq, Eq, Structural)]
pub struct ExitSleepMode;

impl DcsCommand for ExitSleepMode {
    proof fn params_fit(&self) {
    }

    open spec fn spec_instruction(&self) -> u8 {
        0x11
    }

    open spec fn spec_params(&self) -> Seq<u8> {
        Seq::empty()
    }

    fn instruction(&self) -> (i: u8) {
        0x11
    }

    fn fill_params_buf(&self, buffer: &mut [u8]) -> (r: Result<usize, Error>) {
        proof {
            no_params_written(buffer@);
        }
        Ok(0)
    }
}

/// Enter normal display mode.
#[derive(Debug, Clone, Copy, PartialEq, Eq, Structural)]
pub struct EnterNormalMode;

impl DcsCommand for EnterNormalMode {
    proof fn params_fit(&self) {
    }

    open spec fn spec_instruction(&self) -> u8 {
        0x13
    }

    open spec fn spec_params(&self) -> Seq<u8> {
        Seq::empty()
    }

    fn instruction(&self) -> (i: u8) {
        0x13
    }

    fn fill_params_buf(&self, buffer: &mut [u8]) -> (r: Result<usize, Error>) {
        proof {
            no_params_written(buffer@);
        }
        Ok(0)
    }
}

/// Turn the display on.
#[derive(Debug, Clone, Copy, PartialEq, Eq, Structural)]
pub struct SetDisplayOn;

impl DcsCommand for SetDisplayOn {
    proof fn params_fit(&self) {
    }

    open spec fn spec_instruction(&self) -> u8 {
        0x29
    }

    open spec fn spec_params(&self) -> Seq<u8> {
        Seq::empty()
    }

    fn instruction(&self) -> (i: u8) {
        0x29
    }

    fn fill_params_buf(&self, buffer: &mut [u8]) -> (r: Result<usize, Error>) {
        proof {
            no_params_written(buffer@);
        }
        Ok(0)
    }
}

/// Start a write of pixel data to the frame memory.
#[derive(Debug, Clone, Copy, PartialEq, Eq, Structural)]
pub struct WriteMemoryStart;

impl DcsCommand for WriteMemoryStart {
    proof fn params_fit(&self) {
        assert(self.spec_params().len() == 0);
    }

    open spec fn spec_instruction(&self) -> u8 {
        0x2C
    }

    open spec fn spec_params(&self) -> Seq<u8> {
        Seq::empty()
    }

    fn instruction(&self) -> (i: u8) {
        0x2C
    }

    fn fill_params_buf(&self, buffer: &mut [u8]) -> (r: Result<usize, Error>) {
        proof {
            no_params_written(buffer@);
        }
        Ok(0)
    }
}

/// Set Page Address
#[derive(Debug, Clone, PartialEq, Eq, Structural)]
pub struct SetPageAddress {
    start_row: u16,
    end_row: u16,
}

impl SetPageAddress {
    /// The first row of the window.
    pub closed spec fn start(&self) -> u16 {
        self.start_row
    }

    /// The last row of the window.
    pub closed spec fn end(&self) -> u16 {
        self.end_row
    }

    /// Creates a new Set Page Address command.
    pub fn new(start_row: u16, end_row: u16) -> (r: Self)
        ensures
            r.start() == start_row,
            r.end() == end_row,
    {
        Self { start_row, end_row }
    }
}

impl DcsCommand for SetPageAddress {
    proof fn params_fit(&self) {
    }

    open spec fn spec_instruction(&self) -> u8 {
        0x2B
    }

    open spec fn spec_params(&self) -> Seq<u8> {
        be_bytes(self.start()) + be_bytes(self.end())
    }

    fn instruction(&self) -> (i: u8) {
        0x2B
    }

    fn fill_params_buf(&self, buffer: &mut [u8]) -> (r: Result<usize, Error>) {
        write_u16_pair(buffer, self.start_row, self.end_row);
        Ok(4)
    }
}

/// Set Scroll Area: the fixed top area, the scroll area and the fixed bottom area.
#[derive(Debug, Clone, Copy, PartialEq, Eq, Structural)]
pub struct SetScrollArea {
    top_fixed_area: u16,
    vertical_scrolling_area: u16,
    bottom_fixed_area: u16,
}

impl SetScrollArea {
    /// The height of the fixed area at the top.
    pub closed spec fn top(&self) -> u16 {
        self.top_fixed_area
    }

    /// The height of the scrolling area.
    pub closed spec fn scrolling(&self) -> u16 {
        self.vertical_scrolling_area
    }

    /// The height of the fixed area at the bottom.
    pub closed spec fn bottom(&self) -> u16 {
        self.bottom_fixed_area
    }

    /// Creates a new Set Scroll Area command.
    pub fn new(top_fixed_area: u16, vertical_scrolling_area: u16, bottom_fixed_area: u16) -> (r:
        Self)
        ensures
            r.top() == top_fixed_area,
            r.scrolling() == vertical_scrolling_area,
            r.bottom() == bottom_fixed_area,
    {
        Self { top_fixed_area, vertical_scrolling_area, bottom_fixed_area }
    }
}

impl DcsCommand for SetScrollArea {
    proof fn params_fit(&self) {
    }

    open spec fn spec_instruction(&self) -> u8 {
        0x33
    }

    open spec fn spec_params(&self) -> Seq<u8> {
        be_bytes(self.top()) + be_bytes(self.scrolling()) + be_bytes(self.bottom())
    }

    fn instruction(&self) -> (i: u8) {
        0x33
    }

    fn fill_params_buf(&self, buffer: &mut [u8]) -> (r: Result<usize, Error>) {
        write_u16_pair(buffer, self.top_fixed_area, self.vertical_scrolling_area);
        let ghost mid = buffer@;
        assert forall|i: int| 4 <= i < mid.len() implies mid[i] == old(buffer)@[i] by {
            assert(mid.subrange(4, mid.len() as int)[i - 4] == old(buffer)@.subrange(
                4,
                old(buffer)@.len() as int,
            )[i - 4]);
        }
        buffer[4] = (self.bottom_fixed_area / 256) as u8;
        buffer[5] = (self.bottom_fixed_area % 256) as u8;
        assert(buffer@.subrange(0, 6) =~= buffer@.subrange(0, 4) + be_bytes(
            self.bottom_fixed_area,
        ));
        assert(buffer@.subrange(6, buffer@.len() as int) =~= old(buffer)@.subrange(
            6,
            old(buffer)@.len() as int,
        ));
        Ok(6)
    }
}

/// Set Scroll Start: the first row of the scrolling area that is shown.
#[derive(Debug, Clone, Copy, PartialEq, Eq, Structural)]
pub struct SetScrollStart(u16);

impl SetScrollStart {
    /// The row offset of the scroll.
    pub closed spec fn offset(&self) -> u16 {
        self.0
    }

    /// Creates a new Set Scroll Start command.
    pub fn new(offset: u16) -> (r: Self)
        ensures
            r.offset() == offset,
    {
        Self(offset)
    }
}

impl DcsCommand for SetScrollStart {
    proof fn params_fit(&self) {
    }

    open spec fn spec_instruction(&self) -> u8 {
        0x37
    }

    open spec fn spec_params(&self) -> Seq<u8> {
        be_bytes(self.offset())
    }

    fn instruction(&self) -> (i: u8) {
        0x37
    }

    fn fill_params_buf(&self, buffer: &mut [u8]) -> (r: Result<usize, Error>) {
        buffer[0] = (self.0 / 256) as u8;
        buffer[1] = (self.0 % 256) as u8;
        assert(buffer@.subrange(0, 2) =~= be_bytes(self.0));
        assert(buffer@.subrange(2, buffer@.len() as int) =~= old(buffer)@.subrange(
            2,
            old(buffer)@.len() as int,
        ));
        Ok(2)
    }
}

/// Set Tearing Effect: turns the tearing effect output off, or on in one of its modes.
#[derive(Debug, Clone, Copy, PartialEq, Eq, Structural)]
pub struct SetTearingEffect(pub TearingEffect);

impl SetTearingEffect {
    /// Creates a new Set Tearing Effect command.
    pub fn new(tearing_effect: TearingEffect) -> (r: Self)
        ensures
            r.0 == tearing_effect,
    {
        Self(tearing_effect)
    }
}

impl DcsCommand for SetTearingEffect {
    proof fn params_fit(&self) {
    }

    open spec fn spec_instruction(&self) -> u8 {
        match self.0 {
            TearingEffect::Off => 0x34,
            _ => 0x35,
        }
    }

    open spec fn spec_params(&self) -> Seq<u8> {
        match self.0 {
            TearingEffect::Off => Seq::empty(),
            TearingEffect::Vertical => seq![0u8],
            TearingEffect::HorizontalAndVertical => seq![1u8],
        }
    }

    fn instruction(&self) -> (i: u8) {
        match self.0 {
            TearingEffect::Off => 0x34,
            _ => 0x35,
        }
    }

    fn fill_params_buf(&self, buffer: &mut [u8]) -> (r: Result<usize, Error>) {
        match self.0 {
            TearingEffect::Off => {
                proof {
                    no_params_written(buffer@);
                }
                Ok(0)
            },
            TearingEffect::Vertical => {
                buffer[0] = 0;
                assert(buffer@.subrange(0, 1) =~= seq![0u8]);
                assert(buffer@.subrange(1, buffer@.len() as int) =~= old(buffer)@.subrange(
                    1,
                    old(buffer)@.len() as int,
                ));
                Ok(1)
            },
            TearingEffect::HorizontalAndVertical => {
                buffer[0] = 1;
                assert(buffer@.subrange(0, 1) =~= seq![1u8]);
                assert(buffer@.subrange(1, buffer@.len() as int) =~= old(buffer)@.subrange(
                    1,
                    old(buffer)@.len() as int,
                ));
                Ok(1)
            },
        }
    }
}

/// Bits per pixel of a pixel format.
#[derive(Debug, Clone, Copy, PartialEq, Eq, Structural)]
pub enum BitsPerPixel {
    /// 3 bits per pixel.
    Three,
    /// 8 bits per pixel.
    Eight,
    /// 12 bits per pixel.
    Twelve,
    /// 16 bits per pixel.
    Sixteen,
    /// 18 bits per pixel.
    Eighteen,
    /// 24 bits per pixel.
    TwentyFour,
}

/// The number of bits per pixel that a variant stands for.
pub open spec fn bits_per_pixel_count(bpp: BitsPerPixel) -> int {
    match bpp {
        BitsPerPixel::Three => 3,
        BitsPerPixel::Eight => 8,
        BitsPerPixel::Twelve => 12,
        BitsPerPixel::Sixteen => 16,
        BitsPerPixel::Eighteen => 18,
        BitsPerPixel::TwentyFour => 24,
    }
}

/// The three bit code of a bits per pixel value in the pixel format byte.
pub open spec fn bits_per_pixel_code(bpp: BitsPerPixel) -> u8 {
    match bpp {
        BitsPerPixel::Three => 0b001,
        BitsPerPixel::Eight => 0b010,
        BitsPerPixel::Twelve => 0b011,
        BitsPerPixel::Sixteen => 0b101,
        BitsPerPixel::Eighteen => 0b110,
        BitsPerPixel::TwentyFour => 0b111,
    }
}

/// Whether a total bit count is one that [`BitsPerPixel`] has a variant for.
pub open spec fn is_supported_bit_count(bits: int) -> bool {
    bits == 3 || bits == 8 || bits == 12 || bits == 16 || bits == 18 || bits == 24
}

impl BitsPerPixel {
    /// Returns the bits per pixel for a color whose channels have the given
    /// maximum values (`RgbColor::MAX_R`, `MAX_G` and `MAX_B`): the count of
    /// trailing one bits of the three maxima, added.
    pub fn from_rgb_color(max_r: u8, max_g: u8, max_b: u8) -> (r: Self)
        requires
            is_supported_bit_count(
                u8::trailing_ones(max_r) + u8::trailing_ones(max_g) + u8::trailing_ones(max_b),
            ),
        ensures
            bits_per_pixel_count(r) == u8::trailing_ones(max_r) + u8::trailing_ones(max_g)
                + u8::trailing_ones(max_b),
    {
        let bpp = max_r.trailing_ones() + max_g.trailing_ones() + max_b.trailing_ones();
        if bpp == 3 {
            Self::Three
        } else if bpp == 8 {
            Self::Eight
        } else if bpp == 12 {
            Self::Twelve
        } else if bpp == 16 {
            Self::Sixteen
        } else if bpp == 18 {
            Self::Eighteen
        } else {
            Self::TwentyFour
        }
    }

    /// The three bit code of this value in the pixel format byte.
    pub fn code(self) -> (c: u8)
        ensures
            c == bits_per_pixel_code(self),
    {
        match self {
            Self::Three => 0b001,
            Self::Eight => 0b010,
            Self::Twelve => 0b011,
            Self::Sixteen => 0b101,
            Self::Eighteen => 0b110,
            Self::TwentyFour => 0b111,
        }
    }
}

/// Pixel format of the display (DPI) and of the control interface (DBI).
#[derive(Debug, Clone, Copy, PartialEq, Eq, Structural)]
pub struct PixelFormat {
    /// Pixel format of the display pixel interface.
    pub dpi: BitsPerPixel,
    /// Pixel format of the display bus interface.
    pub dbi: BitsPerPixel,
}

impl PixelFormat {
    /// Creates a pixel format with different formats for the two interfaces.
    pub fn new(dpi: BitsPerPixel, dbi: BitsPerPixel) -> (r: Self)
        ensures
            r.dpi == dpi,
            r.dbi == dbi,
    {
        Self { dpi, dbi }
    }

    /// Creates a pixel format with the same format for both interfaces.
    pub fn with_all(bpp: BitsPerPixel) -> (r: Self)
        ensures
            r.dpi == bpp,
            r.dbi == bpp,
    {
        Self { dpi: bpp, dbi: bpp }
    }

    /// The pixel format byte: the display interface code in the high nibble and
    /// the bus interface code in the low nibble.
    pub open spec fn spec_as_u8(&self) -> u8 {
        (bits_per_pixel_code(self.dpi) * 16 + bits_per_pixel_code(self.dbi)) as u8
    }

    /// Returns the pixel format byte.
    pub fn as_u8(&self) -> (b: u8)
        ensures
            b == self.spec_as_u8(),
    {
        self.dpi.code() * 16 + self.dbi.code()
    }
}

/// Set Pixel Format
#[derive(Debug, Clone, Copy, PartialEq, Eq, Structural)]
pub struct SetPixelFormat(pub PixelFormat);

impl SetPixelFormat {
    /// Creates a new Set Pixel Format command.
    pub fn new(pixel_format: PixelFormat) -> (r: Self)
        ensures
            r.0 == pixel_format,
    {
        Self(pixel_format)
    }
}

impl DcsCommand for SetPixelFormat {
    proof fn params_fit(&self) {
    }

    open spec fn spec_instruction(&self) -> u8 {
        0x3A
    }

    open spec fn spec_params(&self) -> Seq<u8> {
        seq![self.0.spec_as_u8()]
    }

    fn instruction(&self) -> (i: u8) {
        0x3A
    }

    fn fill_params_buf(&self, buffer: &mut [u8]) -> (r: Result<usize, Error>) {
        buffer[0] = self.0.as_u8();
        assert(buffer@.subrange(0, 1) =~= seq![self.0.spec_as_u8()]);
        assert(buffer@.subrange(1, buffer@.len() as int) =~= old(buffer)@.subrange(
            1,
            old(buffer)@.len() as int,
        ));
        Ok(1)
    }
}

} // verus!
