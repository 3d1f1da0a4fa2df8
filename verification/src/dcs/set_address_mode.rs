//! Module for the MADCTL instruction constructors

use vstd::prelude::*;

use super::DcsCommand;
use crate::error::Error;
use crate::options::{
    ColorOrder, HorizontalRefreshOrder, ModelOptions, Orientation, RefreshOrder,
    VerticalRefreshOrder,
};

verus! {

/// The bit of the address mode that selects the subpixel order.
pub open spec fn color_order_bits(color_order: ColorOrder) -> u8 {
    match color_order {
        ColorOrder::Rgb => 0b0000_0000,
        ColorOrder::Bgr => 0b0000_1000,
    }
}

/// The row order, column order and row/column exchange bits of the address mode.
pub open spec fn orientation_bits(orientation: Orientation) -> u8 {
    match orientation {
        Orientation::Portrait(false) => 0b0000_0000,
        Orientation::Portrait(true) => 0b0100_0000,
        Orientation::PortraitInverted(false) => 0b1100_0000,
        Orientation::PortraitInverted(true) => 0b1000_0000,
        Orientation::Landscape(false) => 0b0010_0000,
        Orientation::Landscape(true) => 0b0110_0000,
        Orientation::LandscapeInverted(false) => 0b1110_0000,
        Orientation::LandscapeInverted(true) => 0b1010_0000,
    }
}

/// The vertical and horizontal refresh order bits of the address mode.
pub open spec fn refresh_order_bits(refresh_order: RefreshOrder) -> u8 {
    match (refresh_order.vertical, refresh_order.horizontal) {
        (VerticalRefreshOrder::TopToBottom, HorizontalRefreshOrder::LeftToRight) => 0b0000_0000,
        (VerticalRefreshOrder::TopToBottom, HorizontalRefreshOrder::RightToLeft) => 0b0000_0100,
        (VerticalRefreshOrder::BottomToTop, HorizontalRefreshOrder::LeftToRight) => 0b0001_0000,
        (VerticalRefreshOrder::BottomToTop, HorizontalRefreshOrder::RightToLeft) => 0b0001_0100,
    }
}

/// The address mode bits that a set of model options asks for.
pub open spec fn address_mode_bits_of(options: ModelOptions) -> u8 {
    color_order_bits(options.color_order) | orientation_bits(options.orientation)
        | refresh_order_bits(options.refresh_order)
}

/// Address mode bits with the subpixel order bit replaced.
pub open spec fn with_color_order_bits(bits: u8, color_order: ColorOrder) -> u8 {
    (bits & 0b1111_0111) | color_order_bits(color_order)
}

/// Address mode bits with the orientation bits replaced.
pub open spec fn with_orientation_bits(bits: u8, orientation: Orientation) -> u8 {
    (bits & 0b0001_1111) | orientation_bits(orientation)
}

/// Address mode bits with the refresh order bits replaced.
pub open spec fn with_refresh_order_bits(bits: u8, refresh_order: RefreshOrder) -> u8 {
    (bits & 0b1110_1011) | refresh_order_bits(refresh_order)
}

/// Set Address Mode
#[derive(Debug, Clone, Copy, PartialEq, Eq, Structural)]
pub struct SetAddressMode(u8);

impl Default for SetAddressMode {
    fn default() -> (r: Self)
        ensures
            r.bits() == 0,
    {
        SetAddressMode(0)
    }
}

impl SetAddressMode {
    /// The parameter byte of the command.
    pub closed spec fn bits(&self) -> u8 {
        self.0
    }

    /// Creates a new Set Address Mode command.
    pub fn new(color_order: ColorOrder, orientation: Orientation, refresh_order: RefreshOrder) -> (r:
        Self)
        ensures
            r.bits() == with_refresh_order_bits(
                with_orientation_bits(with_color_order_bits(0, color_order), orientation),
                refresh_order,
            ),
            r.bits() == color_order_bits(color_order) | orientation_bits(orientation)
                | refresh_order_bits(refresh_order),
    {
        let r = Self::default().with_color_order(color_order).with_orientation(
            orientation,
        ).with_refresh_order(refresh_order);
        proof {
            fresh_bits_are_the_fields(color_order, orientation, refresh_order);
        }
        r
    }

    /// Returns this Madctl with [ColorOrder] set to new value
    #[must_use]
    pub fn with_color_order(self, color_order: ColorOrder) -> (r: Self)
        ensures
            r.bits() == with_color_order_bits(self.bits(), color_order),
    {
        let mut result = self;
        match color_order {
            ColorOrder::Rgb => {
                let b = result.0;
                assert(b & 0b1111_0111 == (b & 0b1111_0111) | 0) by (bit_vector);
                result.0 = b & 0b1111_0111;
            },
            ColorOrder::Bgr => {
                let b = result.0;
                assert(b | 0b0000_1000 == (b & 0b1111_0111) | 0b0000_1000) by (bit_vector);
                result.0 = b | 0b0000_1000;
            },
        }
        result
    }

    /// Returns this Madctl with [Orientation] set to new value
    #[must_use]
    pub fn with_orientation(self, orientation: Orientation) -> (r: Self)
        ensures
            r.bits() == with_orientation_bits(self.bits(), orientation),
    {
        let mut result = self;
        let value: u8 = match orientation {
            Orientation::Portrait(false) => 0b0000_0000,
            Orientation::Portrait(true) => 0b0100_0000,
            Orientation::PortraitInverted(false) => 0b1100_0000,
            Orientation::PortraitInverted(true) => 0b1000_0000,
            Orientation::Landscape(false) => 0b0010_0000,
            Orientation::Landscape(true) => 0b0110_0000,
            Orientation::LandscapeInverted(false) => 0b1110_0000,
            Orientation::LandscapeInverted(true) => 0b1010_0000,
        };
        result.0 = (result.0 & 0b0001_1111) | value;
        result
    }

    /// Returns this Madctl with [RefreshOrder] set to new value
    #[must_use]
    pub fn with_refresh_order(self, refresh_order: RefreshOrder) -> (r: Self)
        ensures
            r.bits() == with_refresh_order_bits(self.bits(), refresh_order),
    {
        let mut result = self;
        let value: u8 = match (refresh_order.vertical, refresh_order.horizontal) {
            (VerticalRefreshOrder::TopToBottom, HorizontalRefreshOrder::LeftToRight) => 0b0000_0000,
            (VerticalRefreshOrder::TopToBottom, HorizontalRefreshOrder::RightToLeft) => 0b0000_0100,
            (VerticalRefreshOrder::BottomToTop, HorizontalRefreshOrder::LeftToRight) => 0b0001_0000,
            (VerticalRefreshOrder::BottomToTop, HorizontalRefreshOrder::RightToLeft) => 0b0001_0100,
        };
        result.0 = (result.0 & 0b1110_1011) | value;
        result
    }

    /// Creates the address mode that the given model options ask for.
    pub fn from_options(options: &ModelOptions) -> (r: Self)
        ensures
            r.bits() == address_mode_bits_of(*options),
    {
        Self::new(options.color_order, options.orientation, options.refresh_order)
    }
}

impl DcsCommand for SetAddressMode {
    proof fn params_fit(&self) {
    }

    open spec fn spec_instruction(&self) -> u8 {
        0x36
    }

    open spec fn spec_params(&self) -> Seq<u8> {
        seq![self.bits()]
    }

    fn instruction(&self) -> (i: u8) {
        0x36
    }

    fn fill_params_buf(&self, buffer: &mut [u8]) -> (r: Result<usize, Error>) {
        buffer[0] = self.0;
        assert(buffer@.subrange(0, 1) =~= seq![self.0]);
        assert(buffer@.subrange(1, buffer@.len() as int) =~= old(buffer)@.subrange(
            1,
            old(buffer)@.len() as int,
        ));
        Ok(1)
    }
}

impl<'a> From<&'a ModelOptions> for SetAddressMode {
    fn from(options: &'a ModelOptions) -> (r: Self) {
        Self::from_options(options)
    }
}

impl<'a> vstd::std_specs::convert::FromSpecImpl<&'a ModelOptions> for SetAddressMode {
    open spec fn obeys_from_spec() -> bool {
        true
    }

    closed spec fn from_spec(v: &'a ModelOptions) -> Self {
        SetAddressMode(
            color_order_bits(v.color_order) | orientation_bits(v.orientation) | refresh_order_bits(
                v.refresh_order,
            ),
        )
    }
}

proof fn color_bits_outside_mask(x: u8)
    by (bit_vector)
    requires
        x == 0 || x == 0b0000_1000,
    ensures
        x & 0b1111_0111 == 0,
{
}

proof fn orientation_bits_outside_mask(x: u8)
    by (bit_vector)
    requires
        x == 0 || x == 0b0100_0000 || x == 0b1100_0000 || x == 0b1000_0000 || x == 0b0010_0000
            || x == 0b0110_0000 || x == 0b1110_0000 || x == 0b1010_0000,
    ensures
        x & 0b0001_1111 == 0,
{
}

proof fn refresh_bits_outside_mask(x: u8)
    by (bit_vector)
    requires
        x == 0 || x == 0b0000_0100 || x == 0b0001_0000 || x == 0b0001_0100,
    ensures
        x & 0b1110_1011 == 0,
{
}

/// Each field's bits lie within the field's own mask.
proof fn field_bits_in_masks(c: ColorOrder, o: Orientation, r: RefreshOrder)
    ensures
        color_order_bits(c) & 0b1111_0111 == 0,
        orientation_bits(o) & 0b0001_1111 == 0,
        refresh_order_bits(r) & 0b1110_1011 == 0,
{
    color_bits_outside_mask(color_order_bits(c));
    orientation_bits_outside_mask(orientation_bits(o));
    refresh_bits_outside_mask(refresh_order_bits(r));
}

/// Setting the three fields of a cleared address mode gives the union of their bits.
proof fn fresh_bits_are_the_fields(c: ColorOrder, o: Orientation, r: RefreshOrder)
    ensures
        with_refresh_order_bits(with_orientation_bits(with_color_order_bits(0, c), o), r)
            == color_order_bits(c) | orientation_bits(o) | refresh_order_bits(r),
{
    let cb = color_order_bits(c);
    let ob = orientation_bits(o);
    let rb = refresh_order_bits(r);
    field_bits_in_masks(c, o, r);
    assert(((((0u8 & 0b1111_0111) | cb) & 0b0001_1111) | ob) & 0b1110_1011 | rb == cb | ob | rb)
        by (bit_vector)
        requires
            cb & 0b1111_0111 == 0,
            ob & 0b0001_1111 == 0,
            rb & 0b1110_1011 == 0,
    ;
}

/// The three setters of the address mode change disjoint bits: each keeps what
/// the others set, and setting a field twice keeps only the last value.
pub proof fn address_mode_fields_independent(
    bits: u8,
    c: ColorOrder,
    c2: ColorOrder,
    o: Orientation,
    o2: Orientation,
    r: RefreshOrder,
    r2: RefreshOrder,
)
    ensures
        with_orientation_bits(with_color_order_bits(bits, c), o) == with_color_order_bits(
            with_orientation_bits(bits, o),
            c,
        ),
        with_refresh_order_bits(with_color_order_bits(bits, c), r) == with_color_order_bits(
            with_refresh_order_bits(bits, r),
            c,
        ),
        with_refresh_order_bits(with_orientation_bits(bits, o), r) == with_orientation_bits(
            with_refresh_order_bits(bits, r),
            o,
        ),
        with_color_order_bits(with_color_order_bits(bits, c), c2) == with_color_order_bits(
            bits,
            c2,
        ),
        with_orientation_bits(with_orientation_bits(bits, o), o2) == with_orientation_bits(
            bits,
            o2,
        ),
        with_refresh_order_bits(with_refresh_order_bits(bits, r), r2) == with_refresh_order_bits(
            bits,
            r2,
        ),
{
    let cb = color_order_bits(c);
    let cb2 = color_order_bits(c2);
    let ob = orientation_bits(o);
    let ob2 = orientation_bits(o2);
    let rb = refresh_order_bits(r);
    let rb2 = refresh_order_bits(r2);
    field_bits_in_masks(c, o, r);
    field_bits_in_masks(c2, o2, r2);
    assert({
        &&& (((bits & 0b1111_0111) | cb) & 0b0001_1111) | ob == (((bits & 0b0001_1111) | ob)
            & 0b1111_0111) | cb
        &&& (((bits & 0b1111_0111) | cb) & 0b1110_1011) | rb == (((bits & 0b1110_1011) | rb)
            & 0b1111_0111) | cb
        &&& (((bits & 0b0001_1111) | ob) & 0b1110_1011) | rb == (((bits & 0b1110_1011) | rb)
            & 0b0001_1111) | ob
        &&& (((bits & 0b1111_0111) | cb) & 0b1111_0111) | cb2 == (bits & 0b1111_0111) | cb2
        &&& (((bits & 0b0001_1111) | ob) & 0b0001_1111) | ob2 == (bits & 0b0001_1111) | ob2
        &&& (((bits & 0b1110_1011) | rb) & 0b1110_1011) | rb2 == (bits & 0b1110_1011) | rb2
    }) by (bit_vector)
        requires
            cb & 0b1111_0111 == 0,
            cb2 & 0b1111_0111 == 0,
            ob & 0b0001_1111 == 0,
            ob2 & 0b0001_1111 == 0,
            rb & 0b1110_1011 == 0,
            rb2 & 0b1110_1011 == 0,
    ;
}

/// Changing the orientation bits of the address mode of some options gives the
/// address mode of those options with the new orientation: the address mode a
/// display sends keeps agreeing with its options when its orientation changes.
pub proof fn orientation_change_keeps_options(options: ModelOptions, orientation: Orientation)
    ensures
        with_orientation_bits(address_mode_bits_of(options), orientation) == address_mode_bits_of(
            ModelOptions { orientation, ..options },
        ),
{
    let cb = color_order_bits(options.color_order);
    let ob = orientation_bits(options.orientation);
    let ob2 = orientation_bits(orientation);
    let rb = refresh_order_bits(options.refresh_order);
    field_bits_in_masks(options.color_order, options.orientation, options.refresh_order);
    field_bits_in_masks(options.color_order, orientation, options.refresh_order);
    assert(((cb | ob | rb) & 0b0001_1111) | ob2 == cb | ob2 | rb) by (bit_vector)
        requires
            cb & 0b1111_0111 == 0,
            ob & 0b0001_1111 == 0,
            ob2 & 0b0001_1111 == 0,
            rb & 0b1110_1011 == 0,
    ;
}

/// Whether address mode bits exchange rows and columns (the MV bit, 0x20).
pub open spec fn exchanges_rows_and_columns(bits: u8) -> bool {
    bits & 0b0010_0000 != 0
}

/// Whether address mode bits reverse the column address order (the MX bit, 0x40).
pub open spec fn reverses_columns(bits: u8) -> bool {
    bits & 0b0100_0000 != 0
}

/// Whether address mode bits reverse the row address order (the MY bit, 0x80).
pub open spec fn reverses_rows(bits: u8) -> bool {
    bits & 0b1000_0000 != 0
}

/// The same orientation with the mirror image flag the other way round.
pub open spec fn mirror_toggled(orientation: Orientation) -> Orientation {
    match orientation {
        Orientation::Portrait(m) => Orientation::Portrait(!m),
        Orientation::PortraitInverted(m) => Orientation::PortraitInverted(!m),
        Orientation::Landscape(m) => Orientation::Landscape(!m),
        Orientation::LandscapeInverted(m) => Orientation::LandscapeInverted(!m),
    }
}

/// The orientation turned by half a turn: portrait and inverted portrait, or
/// landscape and inverted landscape, exchanged, the mirror flag kept.
pub open spec fn half_turned(orientation: Orientation) -> Orientation {
    match orientation {
        Orientation::Portrait(m) => Orientation::PortraitInverted(m),
        Orientation::PortraitInverted(m) => Orientation::Portrait(m),
        Orientation::Landscape(m) => Orientation::LandscapeInverted(m),
        Orientation::LandscapeInverted(m) => Orientation::Landscape(m),
    }
}

/// The values that the orientation bits take, and how the masks and flips
/// of the laws below act on them.
pub(crate) proof fn orientation_bit_values()
    by (bit_vector)
    ensures
        0x00u8 ^ 0x40u8 == 0x40u8 && 0x40u8 ^ 0x40u8 == 0x00u8 && 0xC0u8 ^ 0x40u8 == 0x80u8
            && 0x80u8 ^ 0x40u8 == 0xC0u8 && 0x20u8 ^ 0x40u8 == 0x60u8 && 0x60u8 ^ 0x40u8 == 0x20u8
            && 0xE0u8 ^ 0x40u8 == 0xA0u8 && 0xA0u8 ^ 0x40u8 == 0xE0u8,
        0x00u8 ^ 0xC0u8 == 0xC0u8 && 0x40u8 ^ 0xC0u8 == 0x80u8 && 0xC0u8 ^ 0xC0u8 == 0x00u8
            && 0x80u8 ^ 0xC0u8 == 0x40u8 && 0x20u8 ^ 0xC0u8 == 0xE0u8 && 0x60u8 ^ 0xC0u8 == 0xA0u8
            && 0xE0u8 ^ 0xC0u8 == 0x20u8 && 0xA0u8 ^ 0xC0u8 == 0x60u8,
        0x00u8 & 0x20u8 == 0 && 0x40u8 & 0x20u8 == 0 && 0xC0u8 & 0x20u8 == 0 && 0x80u8 & 0x20u8
            == 0 && 0x20u8 & 0x20u8 != 0 && 0x60u8 & 0x20u8 != 0 && 0xE0u8 & 0x20u8 != 0 && 0xA0u8
            & 0x20u8 != 0,
        0x00u8 & 0x40u8 == 0 && 0x40u8 & 0x40u8 != 0 && 0xC0u8 & 0x40u8 != 0 && 0x80u8 & 0x40u8
            == 0 && 0x20u8 & 0x40u8 == 0 && 0x60u8 & 0x40u8 != 0 && 0xE0u8 & 0x40u8 != 0 && 0xA0u8
            & 0x40u8 == 0,
        0x00u8 & 0x80u8 == 0 && 0x40u8 & 0x80u8 == 0 && 0xC0u8 & 0x80u8 != 0 && 0x80u8 & 0x80u8
            != 0 && 0x20u8 & 0x80u8 == 0 && 0x60u8 & 0x80u8 == 0 && 0xE0u8 & 0x80u8 != 0 && 0xA0u8
            & 0x80u8 != 0,
        0x00u8 & 0x1Fu8 == 0 && 0x40u8 & 0x1Fu8 == 0 && 0xC0u8 & 0x1Fu8 == 0 && 0x80u8 & 0x1Fu8
            == 0 && 0x20u8 & 0x1Fu8 == 0 && 0x60u8 & 0x1Fu8 == 0 && 0xE0u8 & 0x1Fu8 == 0 && 0xA0u8
            & 0x1Fu8 == 0,
{
}

/// Law: the mirror image flag of an orientation flips exactly the column order
/// bit (0x40) of the address mode, and no other bit, for every orientation.
pub proof fn mirroring_flips_column_order(orientation: Orientation)
    ensures
        orientation_bits(mirror_toggled(orientation)) == orientation_bits(orientation) ^ 0x40u8,
{
    orientation_bit_values();
}

/// Law: half a turn reverses both the row order and the column order: it flips
/// exactly the bits 0x80 and 0x40 of the address mode.
pub proof fn half_turn_reverses_rows_and_columns(orientation: Orientation)
    ensures
        orientation_bits(half_turned(orientation)) == orientation_bits(orientation) ^ 0xC0u8,
{
    orientation_bit_values();
}

/// Law: the address mode of an orientation exchanges rows and columns exactly
/// for the landscape orientations, inverted or not, and sets no bit outside
/// the row order, column order and exchange bits.
pub proof fn landscape_exchanges_rows_and_columns(orientation: Orientation)
    ensures
        exchanges_rows_and_columns(orientation_bits(orientation)) <==> (orientation is Landscape
            || orientation is LandscapeInverted),
        orientation_bits(orientation) & 0x1Fu8 == 0,
{
    orientation_bit_values();
}

/// Law: the orientations without mirror image start from the controller's own
/// scan order: portrait sets no bit, and landscape only exchanges rows and
/// columns.
pub proof fn unmirrored_orientations_start_from_the_scan_order()
    ensures
        orientation_bits(Orientation::Portrait(false)) == 0,
        orientation_bits(Orientation::Landscape(false)) == 0b0010_0000,
{
}

/// Law: the drawing area is the display area with its width and height
/// exchanged exactly where the address mode that the orientation sends
/// exchanges rows and columns.
pub proof fn drawing_size_follows_row_column_exchange(options: ModelOptions)
    ensures
        options.spec_display_size() == if exchanges_rows_and_columns(
            orientation_bits(options.orientation),
        ) {
            (options.display_size.1, options.display_size.0)
        } else {
            options.display_size
        },
{
    landscape_exchanges_rows_and_columns(options.orientation);
}

} // verus!
