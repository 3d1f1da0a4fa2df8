//! A display driver for TFT displays that implement the MIPI Display Command
//! Set, with the command encodings, geometry and transfer planning verified.

pub mod options;
pub mod interface;
pub mod dcs;
pub mod error;
pub mod geometry;
pub mod graphics;
pub mod pixelcolor;
pub mod models;
pub mod test_image;

mod builder;
pub use builder::Builder;

pub mod _mock;

use vstd::prelude::*;

use dcs::{
    be_bytes, write_command, EnterSleepMode, ExitSleepMode, SetAddressMode, SetColumnAddress,
    SetPageAddress, SetScrollArea, SetScrollStart, SetTearingEffect, WriteMemoryStart,
};
use geometry::{intersection, Point, Rectangle, Size};
use graphics::{is_take_skip_selection, take_skip_collect, take_u32, Pixel};
use interface::{sent, sent_stop, sent_then, Interface, InterfacePixelFormat, Transfer};
use models::Model;
use options::orientation::MemoryMapping;
use options::{ModelOptions, Orientation, TearingEffect};

verus! {

/// A placeholder for a reset pin on displays whose reset pin is not connected.
pub struct NoResetPin;

/// The memory mapping that the address mode bits of an orientation select:
/// rows reversed (MY), columns reversed (MX), rows and columns exchanged (MV).
pub open spec fn orientation_mapping(orientation: Orientation) -> MemoryMapping {
    let (swap, rows, columns) = match orientation {
        Orientation::Portrait(false) => (false, false, false),
        Orientation::Portrait(true) => (false, false, true),
        Orientation::PortraitInverted(false) => (false, true, true),
        Orientation::PortraitInverted(true) => (false, true, false),
        Orientation::Landscape(false) => (true, false, false),
        Orientation::Landscape(true) => (true, false, true),
        Orientation::LandscapeInverted(false) => (true, true, true),
        Orientation::LandscapeInverted(true) => (true, true, false),
    };
    MemoryMapping { swap_rows_and_columns: swap, reverse_rows: rows, reverse_columns: columns }
}

/// The orientation bits of the address mode command are those of the memory
/// mapping the orientation selects: 0x80 where rows are reversed, 0x40 where
/// columns are reversed, and 0x20 where rows and columns are exchanged.
pub proof fn orientation_bits_select_mapping(orientation: Orientation)
    ensures
        ({
            let m = orientation_mapping(orientation);
            dcs::set_address_mode::orientation_bits(orientation) == (if m.reverse_rows {
                0x80int
            } else {
                0
            }) + (if m.reverse_columns {
                0x40int
            } else {
                0
            }) + (if m.swap_rows_and_columns {
                0x20int
            } else {
                0
            })
        }),
{
}

/// Returns the memory mapping that the address mode bits of an orientation select.
fn mapping_of(orientation: Orientation) -> (m: MemoryMapping)
    ensures
        m == orientation_mapping(orientation),
{
    let (swap, rows, columns) = match orientation {
        Orientation::Portrait(false) => (false, false, false),
        Orientation::Portrait(true) => (false, false, true),
        Orientation::PortraitInverted(false) => (false, true, true),
        Orientation::PortraitInverted(true) => (false, true, false),
        Orientation::Landscape(false) => (true, false, false),
        Orientation::Landscape(true) => (true, false, true),
        Orientation::LandscapeInverted(false) => (true, true, true),
        Orientation::LandscapeInverted(true) => (true, true, false),
    };
    MemoryMapping { swap_rows_and_columns: swap, reverse_rows: rows, reverse_columns: columns }
}

/// The column offset of the display area in framebuffer coordinates, before
/// rows and columns are exchanged.
pub open spec fn column_offset(options: ModelOptions, framebuffer: (u16, u16)) -> int {
    if orientation_mapping(options.orientation).reverse_columns {
        framebuffer.0 - (options.display_size.0 + options.display_offset.0)
    } else {
        options.display_offset.0 as int
    }
}

/// The row offset of the display area in framebuffer coordinates, before rows
/// and columns are exchanged.
pub open spec fn row_offset(options: ModelOptions, framebuffer: (u16, u16)) -> int {
    if orientation_mapping(options.orientation).reverse_rows {
        framebuffer.1 - (options.display_size.1 + options.display_offset.1)
    } else {
        options.display_offset.1 as int
    }
}

/// The offset that is added to drawing coordinates to address the framebuffer.
pub open spec fn window_offset(options: ModelOptions, framebuffer: (u16, u16)) -> (int, int) {
    if orientation_mapping(options.orientation).swap_rows_and_columns {
        (row_offset(options, framebuffer), column_offset(options, framebuffer))
    } else {
        (column_offset(options, framebuffer), row_offset(options, framebuffer))
    }
}

/// Law: the offset added to drawing coordinates follows the address mode that
/// the orientation sends. Along the framebuffer's columns the display area
/// starts at its column offset, counted from the far end where the column order
/// is reversed (0x40); along its rows likewise with the row offset and the row
/// order bit (0x80). Where rows and columns are exchanged (0x20), drawing
/// columns run along the framebuffer's rows, so the column address of `x` is `x`
/// plus the offset along the rows and the page address of `y` is `y` plus the
/// offset along the columns; otherwise the other way round.
pub proof fn window_offset_follows_address_mode(options: ModelOptions, framebuffer: (u16, u16))
    ensures
        ({
            let bits = dcs::set_address_mode::orientation_bits(options.orientation);
            let along_columns = if dcs::set_address_mode::reverses_columns(bits) {
                framebuffer.0 - (options.display_size.0 + options.display_offset.0)
            } else {
                options.display_offset.0 as int
            };
            let along_rows = if dcs::set_address_mode::reverses_rows(bits) {
                framebuffer.1 - (options.display_size.1 + options.display_offset.1)
            } else {
                options.display_offset.1 as int
            };
            window_offset(options, framebuffer) == if dcs::set_address_mode::exchanges_rows_and_columns(
                bits,
            ) {
                (along_rows, along_columns)
            } else {
                (along_columns, along_rows)
            }
        }),
{
    dcs::set_address_mode::landscape_exchanges_rows_and_columns(options.orientation);
    orientation_bits_select_mapping(options.orientation);
    dcs::set_address_mode::orientation_bit_values();
}

/// Whether the offset computation of an address window stays within 16 bits:
/// a reversed direction needs the display area to end within the framebuffer.
pub open spec fn offset_computable(options: ModelOptions, framebuffer: (u16, u16)) -> bool {
    &&& orientation_mapping(options.orientation).reverse_columns ==> options.display_size.0
        + options.display_offset.0 <= framebuffer.0
    &&& orientation_mapping(options.orientation).reverse_rows ==> options.display_size.1
        + options.display_offset.1 <= framebuffer.1
}

/// Whether the address window with the given corners can be computed.
pub open spec fn window_computable(
    options: ModelOptions,
    framebuffer: (u16, u16),
    sx: u16,
    sy: u16,
    ex: u16,
    ey: u16,
) -> bool {
    &&& offset_computable(options, framebuffer)
    &&& sx + window_offset(options, framebuffer).0 <= u16::MAX
    &&& ex + window_offset(options, framebuffer).0 <= u16::MAX
    &&& sy + window_offset(options, framebuffer).1 <= u16::MAX
    &&& ey + window_offset(options, framebuffer).1 <= u16::MAX
}

/// The last column of a rectangle.
pub open spec fn right_edge(r: Rectangle) -> int {
    r.top_left.x + r.size.width - 1
}

/// The last row of a rectangle.
pub open spec fn bottom_edge(r: Rectangle) -> int {
    r.top_left.y + r.size.height - 1
}

/// Whether the address window of a region, if it covers any pixel, can be
/// computed.
pub open spec fn region_addressable(
    options: ModelOptions,
    framebuffer: (u16, u16),
    region: Rectangle,
) -> bool {
    region.is_nonempty() ==> window_computable(
        options,
        framebuffer,
        region.top_left.x as u16,
        region.top_left.y as u16,
        right_edge(region) as u16,
        bottom_edge(region) as u16,
    )
}

/// The column and page address commands that select a window of the framebuffer.
pub open spec fn address_window_transfers<W>(x0: int, y0: int, x1: int, y1: int) -> Seq<
    Transfer<W>,
> {
    seq![
        Transfer::Command { instruction: 0x2A, params: be_bytes(x0 as u16) + be_bytes(x1 as u16) },
        Transfer::Command { instruction: 0x2B, params: be_bytes(y0 as u16) + be_bytes(y1 as u16) },
    ]
}

/// The start of a write of pixel data to the frame memory.
pub open spec fn memory_write_transfer<W>() -> Transfer<W> {
    Transfer::Command { instruction: 0x2C, params: Seq::empty() }
}

/// The words of a sequence of pixels of some format.
pub open spec fn color_words<W, C: InterfacePixelFormat<W>>(colors: Seq<C>) -> Seq<W> {
    colors.map_values(|c: C| c.spec_words()).flatten()
}

///
/// Display driver to connect to TFT displays.
///
pub struct Display<DI, MODEL, RST> {
    // DCS provider
    di: DI,
    // Model
    model: MODEL,
    // Reset pin
    rst: Option<RST>,
    // Model Options, includes current orientation
    options: ModelOptions,
    // Current MADCTL value copy for runtime updates
    madctl: SetAddressMode,
    // State monitor for sleeping
    sleeping: bool,
}

impl<DI, M, RST> Display<DI, M, RST> {
    /// The display interface.
    pub closed spec fn interface(&self) -> DI {
        self.di
    }

    /// The display model.
    pub closed spec fn model(&self) -> M {
        self.model
    }

    /// The reset pin.
    pub closed spec fn reset_pin(&self) -> Option<RST> {
        self.rst
    }

    /// The model options of the display, its current orientation among them.
    pub closed spec fn model_options(&self) -> ModelOptions {
        self.options
    }

    /// The address mode that was last sent to the display.
    pub closed spec fn address_mode(&self) -> SetAddressMode {
        self.madctl
    }

    /// Whether the display was put to sleep.
    pub closed spec fn asleep(&self) -> bool {
        self.sleeping
    }

    /// Assembles a display from an initialized interface.
    pub(crate) fn from_parts(
        di: DI,
        model: M,
        rst: Option<RST>,
        options: ModelOptions,
        madctl: SetAddressMode,
    ) -> (r: Self)
        ensures
            r.interface() == di,
            r.model() == model,
            r.reset_pin() == rst,
            r.model_options() == options,
            r.address_mode() == madctl,
            !r.asleep(),
    {
        Display { di, model, rst, options, madctl, sleeping: false }
    }

    ///
    /// Returns currently set [options::Orientation]
    ///
    pub fn orientation(&self) -> (o: Orientation)
        ensures
            o == self.model_options().orientation,
    {
        self.options.orientation
    }

    ///
    /// Release resources allocated to this driver back.
    /// This returns the display interface, reset pin and and the model deconstructing the driver.
    ///
    pub fn release(self) -> (r: (DI, M, Option<RST>))
        ensures
            r == (self.interface(), self.model(), self.reset_pin()),
    {
        (self.di, self.model, self.rst)
    }

    ///
    /// Returns `true` if display is currently set to sleep.
    ///
    pub fn is_sleeping(&self) -> (b: bool)
        ensures
            b == self.asleep(),
    {
        self.sleeping
    }

    /// Returns the display interface for sending raw commands.
    ///
    /// The rest of the code isn't aware of any state changes that were caused
    /// by sending raw commands; the caller must ensure that the state of the
    /// controller isn't altered in a way that interferes with the normal
    /// operation of this crate.
    pub fn dcs(&mut self) -> (di: &mut DI)
        ensures
            *di == old(self).interface(),
            final(self).interface() == *final(di),
            final(self).model() == old(self).model(),
            final(self).reset_pin() == old(self).reset_pin(),
            final(self).model_options() == old(self).model_options(),
            final(self).address_mode() == old(self).address_mode(),
            final(self).asleep() == old(self).asleep(),
    {
        &mut self.di
    }
}

impl<DI: Interface, M: Model, RST> Display<DI, M, RST> {
    /// The size of the drawing area in the current orientation.
    pub open spec fn spec_size(&self) -> Size {
        Size {
            width: self.model_options().spec_display_size().0 as u32,
            height: self.model_options().spec_display_size().1 as u32,
        }
    }

    /// The rectangle of the drawing area.
    pub open spec fn spec_bounding_box(&self) -> Rectangle {
        Rectangle { top_left: Point { x: 0, y: 0 }, size: self.spec_size() }
    }

    /// The commands that select the window with the given corners of the drawing area.
    pub open spec fn window_transfers(&self, sx: u16, sy: u16, ex: u16, ey: u16) -> Seq<
        Transfer<DI::Word>,
    > {
        let offset = window_offset(self.model_options(), M::spec_framebuffer_size());
        address_window_transfers(sx + offset.0, sy + offset.1, ex + offset.0, ey + offset.1)
    }

    /// Whether the state of the display is unchanged but for its interface.
    pub open spec fn same_state(&self, other: &Self) -> bool {
        &&& self.model() == other.model()
        &&& self.reset_pin() == other.reset_pin()
        &&& self.model_options() == other.model_options()
        &&& self.address_mode() == other.address_mode()
        &&& self.asleep() == other.asleep()
    }

    /// Returns the size of the drawing area in the current orientation.
    pub fn size(&self) -> (s: Size)
        ensures
            s == self.spec_size(),
    {
        let ds = self.options.display_size();
        Size { width: ds.0 as u32, height: ds.1 as u32 }
    }

    /// Returns the rectangle of the drawing area.
    pub fn bounding_box(&self) -> (r: Rectangle)
        ensures
            r == self.spec_bounding_box(),
    {
        Rectangle { top_left: Point { x: 0, y: 0 }, size: self.size() }
    }

    ///
    /// Sets display [options::Orientation] with mirror image parameter
    ///
    pub fn set_orientation(&mut self, orientation: Orientation) -> (r: Result<(), DI::Error>)
        ensures
            final(self).address_mode().bits() == dcs::set_address_mode::with_orientation_bits(
                old(self).address_mode().bits(),
                orientation,
            ),
            final(self).model() == old(self).model(),
            final(self).reset_pin() == old(self).reset_pin(),
            final(self).model_options() == (ModelOptions { orientation, ..old(self).model_options() }),
            final(self).asleep() == old(self).asleep(),
            sent(
                old(self).interface(),
                final(self).interface(),
                seq![
                    Transfer::Command {
                        instruction: 0x36,
                        params: seq![final(self).address_mode().bits()],
                    },
                ],
                r,
            ),
    {
        self.madctl = self.madctl.with_orientation(orientation);
        self.options.orientation = orientation;
        let madctl = self.madctl;
        write_command(&mut self.di, &madctl)
    }

    /// Returns whether the address window with the given corners can be
    /// computed: the offsets of the display area stay within the framebuffer
    /// where a direction is reversed, and the corners plus the offsets fit in
    /// 16 bits.
    pub fn window_is_addressable(&self, sx: u16, sy: u16, ex: u16, ey: u16) -> (b: bool)
        ensures
            b == window_computable(self.model_options(), M::spec_framebuffer_size(), sx, sy, ex, ey),
    {
        let framebuffer = M::framebuffer_size();
        let mapping = mapping_of(self.options.orientation);
        let size = self.options.display_size;
        let offset = self.options.display_offset;
        let end_x: u32 = size.0 as u32 + offset.0 as u32;
        let end_y: u32 = size.1 as u32 + offset.1 as u32;
        if mapping.reverse_columns && end_x > framebuffer.0 as u32 {
            return false;
        }
        if mapping.reverse_rows && end_y > framebuffer.1 as u32 {
            return false;
        }
        let column: u32 = if mapping.reverse_columns {
            framebuffer.0 as u32 - end_x
        } else {
            offset.0 as u32
        };
        let row: u32 = if mapping.reverse_rows {
            framebuffer.1 as u32 - end_y
        } else {
            offset.1 as u32
        };
        let (ox, oy) = if mapping.swap_rows_and_columns {
            (row, column)
        } else {
            (column, row)
        };
        sx as u32 + ox <= 65535 && ex as u32 + ox <= 65535 && sy as u32 + oy <= 65535 && ey as u32
            + oy <= 65535
    }

    /// Returns whether a solid fill of `area` can address the part of it that
    /// lies on the display.
    pub fn fill_is_addressable(&self, area: &Rectangle) -> (b: bool)
        requires
            area.is_representable(),
        ensures
            b == region_addressable(
                self.model_options(),
                M::spec_framebuffer_size(),
                geometry::rectangle_intersection(*area, self.spec_bounding_box()),
            ),
    {
        let bounds = self.bounding_box();
        let region = intersection(area, &bounds);
        match region.bottom_right() {
            Some(bottom_right) => self.window_is_addressable(
                region.top_left.x as u16,
                region.top_left.y as u16,
                bottom_right.x as u16,
                bottom_right.y as u16,
            ),
            None => true,
        }
    }

    /// Returns whether a contiguous fill of `area` can be carried out: the part
    /// of it on the display can be addressed, and the count of colors before
    /// that part fits in 32 bits.
    pub fn contiguous_fill_is_computable(&self, area: &Rectangle) -> (b: bool)
        requires
            area.is_representable(),
        ensures
            b == (region_addressable(
                self.model_options(),
                M::spec_framebuffer_size(),
                geometry::rectangle_intersection(*area, self.spec_bounding_box()),
            ) && ({
                let region = geometry::rectangle_intersection(*area, self.spec_bounding_box());
                region.is_nonempty() && region != *area ==> initial_skip(*area, region) <= u32::MAX
            })),
    {
        let bounds = self.bounding_box();
        let region = intersection(area, &bounds);
        match region.bottom_right() {
            Some(bottom_right) => {
                if !self.window_is_addressable(
                    region.top_left.x as u16,
                    region.top_left.y as u16,
                    bottom_right.x as u16,
                    bottom_right.y as u16,
                ) {
                    return false;
                }
                if region == *area {
                    return true;
                }
                let rows: u64 = if region.top_left.y > area.top_left.y {
                    (region.top_left.y as i64 - area.top_left.y as i64) as u64
                } else {
                    0
                };
                let columns: u64 = if region.top_left.x > area.top_left.x {
                    (region.top_left.x as i64 - area.top_left.x as i64) as u64
                } else {
                    0
                };
                proof {
                    assert(rows * area.size.width <= 0xffff_ffff * 0xffff_ffffu64) by (
                    nonlinear_arith)
                        requires
                            rows <= 0xffff_ffff,
                            area.size.width <= 0xffff_ffff,
                    ;
                }
                let skip: u64 = rows * area.size.width as u64 + columns;
                skip <= 0xffff_ffff
            },
            None => true,
        }
    }

    // Sets the address window for the display.
    fn set_address_window(&mut self, sx: u16, sy: u16, ex: u16, ey: u16) -> (r: Result<
        (),
        DI::Error,
    >)
        requires
            window_computable(
                old(self).model_options(),
                M::spec_framebuffer_size(),
                sx,
                sy,
                ex,
                ey,
            ),
        ensures
            final(self).same_state(old(self)),
            sent(
                old(self).interface(),
                final(self).interface(),
                old(self).window_transfers(sx, sy, ex, ey),
                r,
            ),
    {
        let framebuffer = M::framebuffer_size();
        // add clipping offsets if present
        let mut offset = self.options.display_offset;
        let mapping = mapping_of(self.options.orientation);
        if mapping.reverse_columns {
            offset.0 = framebuffer.0 - (self.options.display_size.0 + offset.0);
        }
        if mapping.reverse_rows {
            offset.1 = framebuffer.1 - (self.options.display_size.1 + offset.1);
        }
        if mapping.swap_rows_and_columns {
            offset = (offset.1, offset.0);
        }
        assert(offset.0 == window_offset(self.options, framebuffer).0);
        assert(offset.1 == window_offset(self.options, framebuffer).1);
        let (x0, y0, x1, y1) = (sx + offset.0, sy + offset.1, ex + offset.0, ey + offset.1);

        let column = SetColumnAddress::new(x0, x1);
        let page = SetPageAddress::new(y0, y1);
        let ghost first = seq![dcs::command_transfer::<DI::Word, SetColumnAddress>(column)];
        let ghost second = seq![dcs::command_transfer::<DI::Word, SetPageAddress>(page)];
        assert(first + second =~= old(self).window_transfers(sx, sy, ex, ey));
        let ghost d0 = self.di;
        let r = write_command(&mut self.di, &column);
        if r.is_err() {
            proof {
                sent_stop(d0, self.di, first, second, r);
            }
            return r;
        }
        let ghost d1 = self.di;
        let r2 = write_command(&mut self.di, &page);
        proof {
            sent_then(d0, d1, self.di, first, second, r, r2);
        }
        r2
    }
    /// Sets the vertical scroll region.
    ///
    /// The `top_fixed_area` and `bottom_fixed_area` arguments can be used to
    /// define an area on the top and/or bottom of the display which won't be
    /// affected by scrolling. If the two fixed areas together are higher than
    /// the framebuffer, the whole framebuffer is fixed at the top.
    ///
    /// Note that this method is not affected by the current display orientation
    /// and will always scroll vertically relative to the default display
    /// orientation.
    pub fn set_vertical_scroll_region(&mut self, top_fixed_area: u16, bottom_fixed_area: u16) -> (r:
        Result<(), DI::Error>)
        requires
            top_fixed_area + bottom_fixed_area <= u16::MAX,
        ensures
            final(self).same_state(old(self)),
            sent(
                old(self).interface(),
                final(self).interface(),
                seq![
                    Transfer::Command {
                        instruction: 0x33,
                        params: if top_fixed_area + bottom_fixed_area
                            > M::spec_framebuffer_size().1 {
                            be_bytes(M::spec_framebuffer_size().1) + be_bytes(0) + be_bytes(0)
                        } else {
                            be_bytes(top_fixed_area) + be_bytes(
                                (M::spec_framebuffer_size().1 - top_fixed_area
                                    - bottom_fixed_area) as u16,
                            ) + be_bytes(bottom_fixed_area)
                        },
                    },
                ],
                r,
            ),
    {
        let rows = M::framebuffer_size().1;

        let vscrdef = if top_fixed_area + bottom_fixed_area > rows {
            SetScrollArea::new(rows, 0, 0)
        } else {
            SetScrollArea::new(
                top_fixed_area,
                rows - top_fixed_area - bottom_fixed_area,
                bottom_fixed_area,
            )
        };

        write_command(&mut self.di, &vscrdef)
    }

    /// Sets the vertical scroll offset.
    ///
    /// Setting the vertical scroll offset shifts the vertical scroll region
    /// upwards by `offset` pixels.
    pub fn set_vertical_scroll_offset(&mut self, offset: u16) -> (r: Result<(), DI::Error>)
        ensures
            final(self).same_state(old(self)),
            sent(
                old(self).interface(),
                final(self).interface(),
                seq![Transfer::Command { instruction: 0x37, params: be_bytes(offset) }],
                r,
            ),
    {
        let vscad = SetScrollStart::new(offset);
        write_command(&mut self.di, &vscad)
    }

    ///
    /// Configures the tearing effect output.
    ///
    pub fn set_tearing_effect(&mut self, tearing_effect: TearingEffect) -> (r: Result<
        (),
        DI::Error,
    >)
        ensures
            final(self).same_state(old(self)),
            sent(
                old(self).interface(),
                final(self).interface(),
                seq![dcs::command_transfer(SetTearingEffect(tearing_effect))],
                r,
            ),
    {
        write_command(&mut self.di, &SetTearingEffect::new(tearing_effect))
    }

    /// What a sleep call (`to_sleep`) or a wake call did to the sleeping flag:
    /// where it succeeded the display sleeps exactly after a sleep call, and
    /// where it failed the flag is as it was.
    pub open spec fn sleep_call(self, after: Self, to_sleep: bool, succeeded: bool) -> bool {
        after.asleep() == if succeeded {
            to_sleep
        } else {
            self.asleep()
        }
    }

    /// Law: after any sequence of sleep and wake calls, the display sleeps
    /// exactly when the last of them that succeeded was a sleep call; where none
    /// succeeded, the flag is as it was before them.
    pub proof fn sleeping_follows_last_success(
        states: Seq<Self>,
        to_sleep: Seq<bool>,
        succeeded: Seq<bool>,
    )
        requires
            states.len() == to_sleep.len() + 1,
            succeeded.len() == to_sleep.len(),
            forall|i: int|
                0 <= i < to_sleep.len() ==> #[trigger] states[i].sleep_call(
                    states[i + 1],
                    to_sleep[i],
                    succeeded[i],
                ),
        ensures
            states.last().asleep() == asleep_after(states[0].asleep(), to_sleep, succeeded),
        decreases to_sleep.len(),
    {
        if to_sleep.len() > 0 {
            let n = to_sleep.len() - 1;
            let shorter = states.drop_last();
            assert forall|i: int| 0 <= i < n implies #[trigger] shorter[i].sleep_call(
                shorter[i + 1],
                to_sleep.drop_last()[i],
                succeeded.drop_last()[i],
            ) by {
                assert(states[i].sleep_call(states[i + 1], to_sleep[i], succeeded[i]));
            }
            Self::sleeping_follows_last_success(shorter, to_sleep.drop_last(), succeeded.drop_last());
            assert(states[n].sleep_call(states[n + 1], to_sleep[n], succeeded[n]));
        }
    }

    ///
    /// Puts the display to sleep, reducing power consumption.
    /// Need to call [Self::wake] before issuing other commands.
    ///
    /// All supported models require a 120ms delay after this command before
    /// other commands are issued; the caller waits.
    ///
    pub fn sleep(&mut self) -> (r: Result<(), DI::Error>)
        ensures
            final(self).model() == old(self).model(),
            final(self).reset_pin() == old(self).reset_pin(),
            final(self).model_options() == old(self).model_options(),
            final(self).address_mode() == old(self).address_mode(),
            old(self).sleep_call(*final(self), true, r is Ok),
            sent(
                old(self).interface(),
                final(self).interface(),
                seq![Transfer::Command { instruction: 0x10, params: Seq::empty() }],
                r,
            ),
    {
        let r = write_command(&mut self.di, &EnterSleepMode);
        if r.is_ok() {
            self.sleeping = true;
        }
        r
    }

    ///
    /// Wakes the display after it's been set to sleep via [Self::sleep].
    ///
    /// The ST7789 and ST7735s need a 120ms delay after this command; the caller waits.
    ///
    pub fn wake(&mut self) -> (r: Result<(), DI::Error>)
        ensures
            final(self).model() == old(self).model(),
            final(self).reset_pin() == old(self).reset_pin(),
            final(self).model_options() == old(self).model_options(),
            final(self).address_mode() == old(self).address_mode(),
            old(self).sleep_call(*final(self), false, r is Ok),
            sent(
                old(self).interface(),
                final(self).interface(),
                seq![Transfer::Command { instruction: 0x11, params: Seq::empty() }],
                r,
            ),
    {
        let r = write_command(&mut self.di, &ExitSleepMode);
        if r.is_ok() {
            self.sleeping = false;
        }
        r
    }
}

impl<DI: Interface, M: Model, RST> Display<DI, M, RST> where
    M::ColorFormat: InterfacePixelFormat<DI::Word> + Copy,
 {
    ///
    /// Sets pixel colors in a rectangular region.
    ///
    /// The color values will be drawn to the given region starting at the top
    /// left corner and continuing, row first, to the bottom right corner. No
    /// bounds checking is performed on the colors and drawing will wrap around
    /// if there are more color values than pixels in the given region.
    ///
    /// The end values of the X and Y coordinate ranges are inclusive.
    pub fn set_pixels(&mut self, sx: u16, sy: u16, ex: u16, ey: u16, colors: &[M::ColorFormat]) -> (r:
        Result<(), DI::Error>)
        requires
            window_computable(
                old(self).model_options(),
                M::spec_framebuffer_size(),
                sx,
                sy,
                ex,
                ey,
            ),
        ensures
            final(self).same_state(old(self)),
            sent(
                old(self).interface(),
                final(self).interface(),
                old(self).window_transfers(sx, sy, ex, ey) + seq![
                    memory_write_transfer(),
                    Transfer::Pixels { words: color_words::<DI::Word, M::ColorFormat>(colors@) },
                ],
                r,
            ),
    {
        let ghost window = old(self).window_transfers(sx, sy, ex, ey);
        let ghost start = seq![memory_write_transfer::<DI::Word>()];
        let ghost data = seq![
            Transfer::Pixels { words: color_words::<DI::Word, M::ColorFormat>(colors@) },
        ];
        assert(window + start + data =~= window + seq![
            memory_write_transfer(),
            Transfer::Pixels { words: color_words::<DI::Word, M::ColorFormat>(colors@) },
        ]);
        assert(window + (start + data) =~= window + start + data);
        let ghost d0 = self.di;
        let r1 = self.set_address_window(sx, sy, ex, ey);
        if r1.is_err() {
            proof {
                sent_stop(d0, self.di, window, start + data, r1);
            }
            return r1;
        }
        let ghost d1 = self.di;
        let r2 = write_command(&mut self.di, &WriteMemoryStart);
        proof {
            sent_then(d0, d1, self.di, window, start, r1, r2);
        }
        if r2.is_err() {
            proof {
                sent_stop(d0, self.di, window + start, data, r2);
            }
            return r2;
        }
        let ghost d2 = self.di;
        let r3 = M::ColorFormat::send_pixels(&mut self.di, colors);
        proof {
            sent_then(d0, d2, self.di, window + start, data, r2, r3);
        }
        r3
    }

    ///
    /// Sets a pixel color at the given coords.
    ///
    pub fn set_pixel(&mut self, x: u16, y: u16, color: M::ColorFormat) -> (r: Result<(), DI::Error>)
        requires
            window_computable(old(self).model_options(), M::spec_framebuffer_size(), x, y, x, y),
        ensures
            final(self).same_state(old(self)),
            sent(
                old(self).interface(),
                final(self).interface(),
                old(self).window_transfers(x, y, x, y) + seq![
                    memory_write_transfer(),
                    Transfer::Pixels { words: color.spec_words() },
                ],
                r,
            ),
    {
        let colors = [color];
        assert(colors@.map_values(|c: M::ColorFormat| c.spec_words()) =~= seq![color.spec_words()]);
        proof {
            seq![color.spec_words()].lemma_flatten_one_element();
        }
        self.set_pixels(x, y, x, y, &colors)
    }
    /// The commands that draw single pixels one after the other.
    pub open spec fn pixel_draw_transfers(&self, pixels: Seq<Pixel<M::ColorFormat>>) -> Seq<
        Transfer<DI::Word>,
    >
        decreases pixels.len(),
    {
        if pixels.len() == 0 {
            Seq::empty()
        } else {
            let p = pixels.last();
            self.pixel_draw_transfers(pixels.drop_last()) + self.window_transfers(
                p.0.x as u16,
                p.0.y as u16,
                p.0.x as u16,
                p.0.y as u16,
            ) + seq![
                memory_write_transfer(),
                Transfer::Pixels { words: p.1.spec_words() },
            ]
        }
    }

    /// Draws pixels one at a time, each at its point with its coordinates taken
    /// modulo 2^16.
    pub fn draw_iter(&mut self, pixels: &[Pixel<M::ColorFormat>]) -> (r: Result<(), DI::Error>)
        requires
            forall|i: int|
                0 <= i < pixels@.len() ==> window_computable(
                    old(self).model_options(),
                    M::spec_framebuffer_size(),
                    (#[trigger] pixels@[i]).0.x as u16,
                    pixels@[i].0.y as u16,
                    pixels@[i].0.x as u16,
                    pixels@[i].0.y as u16,
                ),
        ensures
            final(self).same_state(old(self)),
            sent(
                old(self).interface(),
                final(self).interface(),
                old(self).pixel_draw_transfers(pixels@),
                r,
            ),
    {
        let mut i: usize = 0;
        while i < pixels.len()
            invariant
                i <= pixels@.len(),
                self.same_state(old(self)),
                forall|j: int|
                    0 <= j < pixels@.len() ==> window_computable(
                        old(self).model_options(),
                        M::spec_framebuffer_size(),
                        (#[trigger] pixels@[j]).0.x as u16,
                        pixels@[j].0.y as u16,
                        pixels@[j].0.x as u16,
                        pixels@[j].0.y as u16,
                    ),
                sent(
                    old(self).interface(),
                    self.interface(),
                    old(self).pixel_draw_transfers(pixels@.subrange(0, i as int)),
                    Ok(()),
                ),
            decreases pixels@.len() - i,
        {
            let pixel = pixels[i];
            let x = pixel.0.x as u16;
            let y = pixel.0.y as u16;
            let ghost before = self.di;
            let ghost done = old(self).pixel_draw_transfers(pixels@.subrange(0, i as int));
            let ghost next = old(self).pixel_draw_transfers(pixels@.subrange(0, i + 1));
            proof {
                assert(pixels@.subrange(0, i + 1).drop_last() =~= pixels@.subrange(0, i as int));
                assert(old(self).window_transfers(x, y, x, y) == self.window_transfers(x, y, x, y));
            }
            let ghost step = old(self).window_transfers(x, y, x, y) + seq![
                memory_write_transfer(),
                Transfer::Pixels { words: pixel.1.spec_words() },
            ];
            assert(pixels@.subrange(0, i + 1).last() == pixel);
            assert(next =~= done + step);
            let r = self.set_pixel(x, y, pixel.1);
            proof {
                sent_then(old(self).di, before, self.di, done, step, Ok(()), r);
            }
            if r.is_err() {
                proof {
                    old(self).pixel_draw_prefix(pixels@, i + 1);
                    let whole = old(self).pixel_draw_transfers(pixels@);
                    assert(next + whole.skip(next.len() as int) =~= whole);
                    sent_stop(old(self).di, self.di, next, whole.skip(next.len() as int), r);
                }
                return r;
            }
            i = i + 1;
        }
        assert(pixels@.subrange(0, pixels@.len() as int) =~= pixels@);
        Ok(())
    }

    /// The commands that draw the first `j` pixels begin the commands that draw them all.
    proof fn pixel_draw_prefix(&self, pixels: Seq<Pixel<M::ColorFormat>>, j: int)
        requires
            0 <= j <= pixels.len(),
        ensures
            self.pixel_draw_transfers(pixels.subrange(0, j)).len() <= self.pixel_draw_transfers(
                pixels,
            ).len(),
            self.pixel_draw_transfers(pixels.subrange(0, j)) == self.pixel_draw_transfers(
                pixels,
            ).take(self.pixel_draw_transfers(pixels.subrange(0, j)).len() as int),
        decreases pixels.len(),
    {
        if j == pixels.len() {
            assert(pixels.subrange(0, j) =~= pixels);
            assert(self.pixel_draw_transfers(pixels).take(
                self.pixel_draw_transfers(pixels).len() as int,
            ) =~= self.pixel_draw_transfers(pixels));
        } else {
            self.pixel_draw_prefix(pixels.drop_last(), j);
            assert(pixels.drop_last().subrange(0, j) =~= pixels.subrange(0, j));
            let shorter = self.pixel_draw_transfers(pixels.drop_last());
            let whole = self.pixel_draw_transfers(pixels);
            let part = self.pixel_draw_transfers(pixels.subrange(0, j));
            assert(whole.take(shorter.len() as int) =~= shorter);
            assert(whole.take(part.len() as int) =~= shorter.take(part.len() as int));
        }
    }

    /// Fills a region of the drawing area with one color, given the part of the
    /// requested area that lies on the display.
    pub fn fill_solid_in(&mut self, region: &Rectangle, color: M::ColorFormat) -> (r: Result<
        (),
        DI::Error,
    >)
        requires
            region_addressable(old(self).model_options(), M::spec_framebuffer_size(), *region),
            region.is_nonempty() ==> region.lies_within(old(self).spec_bounding_box()),
        ensures
            final(self).same_state(old(self)),
            !region.is_nonempty() ==> r is Ok && final(self).interface() == old(self).interface(),
            region.is_nonempty() ==> sent(
                old(self).interface(),
                final(self).interface(),
                old(self).window_transfers(
                    region.top_left.x as u16,
                    region.top_left.y as u16,
                    (region.top_left.x + region.size.width - 1) as u16,
                    (region.top_left.y + region.size.height - 1) as u16,
                ) + seq![
                    memory_write_transfer(),
                    Transfer::RepeatedPixel {
                        pixel: color.spec_words(),
                        count: (region.size.width * region.size.height) as u32,
                    },
                ],
                r,
            ),
    {
        let bottom_right = match region.bottom_right() {
            Some(p) => p,
            None => {
                // No intersection -> nothing to draw
                return Ok(());
            },
        };
        let ghost ds = self.options.spec_display_size();
        assert(region.size.width <= u16::MAX && region.size.height <= u16::MAX);
        proof {
            lemma_area_fits_u32(region.size.width, region.size.height);
        }
        let count = region.size.width * region.size.height;

        let sx = region.top_left.x as u16;
        let sy = region.top_left.y as u16;
        let ex = bottom_right.x as u16;
        let ey = bottom_right.y as u16;
        let ghost window = old(self).window_transfers(sx, sy, ex, ey);
        let ghost start = seq![memory_write_transfer::<DI::Word>()];
        let ghost data = seq![Transfer::RepeatedPixel { pixel: color.spec_words(), count }];
        assert(window + start + data =~= window + seq![
            memory_write_transfer(),
            Transfer::RepeatedPixel { pixel: color.spec_words(), count },
        ]);
        assert(window + (start + data) =~= window + start + data);
        let ghost d0 = self.di;
        let r1 = self.set_address_window(sx, sy, ex, ey);
        if r1.is_err() {
            proof {
                sent_stop(d0, self.di, window, start + data, r1);
            }
            return r1;
        }
        let ghost d1 = self.di;
        let r2 = write_command(&mut self.di, &WriteMemoryStart);
        proof {
            sent_then(d0, d1, self.di, window, start, r1, r2);
        }
        if r2.is_err() {
            proof {
                sent_stop(d0, self.di, window + start, data, r2);
            }
            return r2;
        }
        let ghost d2 = self.di;
        let r3 = M::ColorFormat::send_repeated_pixel(&mut self.di, color, count);
        proof {
            sent_then(d0, d2, self.di, window + start, data, r2, r3);
        }
        r3
    }

    /// Fills a rectangle with one color; the parts of the rectangle outside of
    /// the drawing area are left out.
    pub fn fill_solid(&mut self, area: &Rectangle, color: M::ColorFormat) -> (r: Result<
        (),
        DI::Error,
    >)
        requires
            area.is_representable(),
            region_addressable(
                old(self).model_options(),
                M::spec_framebuffer_size(),
                geometry::rectangle_intersection(*area, old(self).spec_bounding_box()),
            ),
        ensures
            final(self).same_state(old(self)),
            ({
                let region = geometry::rectangle_intersection(*area, old(self).spec_bounding_box());
                &&& !region.is_nonempty() ==> r is Ok && final(self).interface() == old(
                    self,
                ).interface()
                &&& region.is_nonempty() ==> sent(
                    old(self).interface(),
                    final(self).interface(),
                    old(self).window_transfers(
                        region.top_left.x as u16,
                        region.top_left.y as u16,
                        (region.top_left.x + region.size.width - 1) as u16,
                        (region.top_left.y + region.size.height - 1) as u16,
                    ) + seq![
                        memory_write_transfer(),
                        Transfer::RepeatedPixel {
                            pixel: color.spec_words(),
                            count: (region.size.width * region.size.height) as u32,
                        },
                    ],
                    r,
                )
            }),
    {
        let bounds = self.bounding_box();
        let region = intersection(area, &bounds);
        self.fill_solid_in(&region, color)
    }
    /// Fills a rectangle with the given colors, row by row, given the part of
    /// the rectangle that lies on the display: only the colors of pixels in
    /// that part are drawn.
    pub fn fill_contiguous_in(
        &mut self,
        area: &Rectangle,
        region: &Rectangle,
        colors: &[M::ColorFormat],
    ) -> (r: Result<(), DI::Error>)
        requires
            region_addressable(old(self).model_options(), M::spec_framebuffer_size(), *region),
            region.is_nonempty() ==> region.lies_within(*area) && region.lies_within(
                old(self).spec_bounding_box(),
            ),
            region.is_nonempty() && *region != *area ==> initial_skip(*area, *region) <= u32::MAX,
        ensures
            final(self).same_state(old(self)),
            !region.is_nonempty() ==> r is Ok && final(self).interface() == old(self).interface(),
            region.is_nonempty() ==> exists|selection: Seq<M::ColorFormat>|
                {
                    &&& is_take_skip_selection(
                        selection,
                        colors@,
                        fill_start(*area, *region),
                        region.size.width as int,
                        area.size.width - region.size.width,
                        region.size.width * region.size.height,
                    )
                    &&& sent(
                        old(self).interface(),
                        final(self).interface(),
                        old(self).window_transfers(
                            region.top_left.x as u16,
                            region.top_left.y as u16,
                            (region.top_left.x + region.size.width - 1) as u16,
                            (region.top_left.y + region.size.height - 1) as u16,
                        ) + seq![
                            memory_write_transfer(),
                            Transfer::Pixels {
                                words: color_words::<DI::Word, M::ColorFormat>(selection),
                            },
                        ],
                        r,
                    )
                },
    {
        let bottom_right = match region.bottom_right() {
            Some(p) => p,
            None => {
                // No intersection -> nothing to draw
                return Ok(());
            },
        };
        // The casts cannot lose bits because the region lies within the
        // display, whose size always fits in an u16.
        let sx = region.top_left.x as u16;
        let sy = region.top_left.y as u16;
        let ex = bottom_right.x as u16;
        let ey = bottom_right.y as u16;
        proof {
            lemma_area_fits_u32(region.size.width, region.size.height);
        }
        let count = region.size.width * region.size.height;

        let selection = if *region == *area {
            // Draw the given colors if no edge overlaps the framebuffer
            take_u32(colors, count)
        } else {
            // Skip pixels above and to the left of the region
            let mut skip_before: u32 = 0;
            if region.top_left.y > area.top_left.y {
                let rows = (region.top_left.y as i64 - area.top_left.y as i64) as u32;
                assert(rows * area.size.width <= initial_skip(*area, *region));
                skip_before = rows * area.size.width;
            }
            if region.top_left.x > area.top_left.x {
                let columns = (region.top_left.x as i64 - area.top_left.x as i64) as u32;
                skip_before = skip_before + columns;
            }
            // Draw only the pixels which don't overlap the edges of the framebuffer
            let take_per_row = region.size.width;
            let skip_per_row = area.size.width - region.size.width;
            take_skip_collect(colors, skip_before, take_per_row, skip_per_row, count)
        };
        let r = self.set_pixels(sx, sy, ex, ey, selection.as_slice());
        proof {
            {
                if *region == *area {
                    assert(count > 0) by (nonlinear_arith)
                        requires
                            region.size.width > 0,
                            region.size.height > 0,
                            count == region.size.width * region.size.height,
                    ;
                    graphics::selection_without_skip(0, count as int, region.size.width as int);
                    assert(is_take_skip_selection(
                        selection@,
                        colors@,
                        0,
                        region.size.width as int,
                        0,
                        count as int,
                    ));
                }
            }
        }
        r
    }

    /// Fills a rectangle with the given colors, row by row; the colors of pixels
    /// outside of the drawing area are left out.
    pub fn fill_contiguous(&mut self, area: &Rectangle, colors: &[M::ColorFormat]) -> (r: Result<
        (),
        DI::Error,
    >)
        requires
            area.is_representable(),
            region_addressable(
                old(self).model_options(),
                M::spec_framebuffer_size(),
                geometry::rectangle_intersection(*area, old(self).spec_bounding_box()),
            ),
            ({
                let region = geometry::rectangle_intersection(*area, old(self).spec_bounding_box());
                region.is_nonempty() && region != *area ==> initial_skip(*area, region) <= u32::MAX
            }),
        ensures
            final(self).same_state(old(self)),
            ({
                let region = geometry::rectangle_intersection(*area, old(self).spec_bounding_box());
                &&& !region.is_nonempty() ==> r is Ok && final(self).interface() == old(
                    self,
                ).interface()
                &&& region.is_nonempty() ==> exists|selection: Seq<M::ColorFormat>|
                    {
                        &&& is_take_skip_selection(
                            selection,
                            colors@,
                            fill_start(*area, region),
                            region.size.width as int,
                            area.size.width - region.size.width,
                            region.size.width * region.size.height,
                        )
                        &&& sent(
                            old(self).interface(),
                            final(self).interface(),
                            old(self).window_transfers(
                                region.top_left.x as u16,
                                region.top_left.y as u16,
                                (region.top_left.x + region.size.width - 1) as u16,
                                (region.top_left.y + region.size.height - 1) as u16,
                            ) + seq![
                                memory_write_transfer(),
                                Transfer::Pixels {
                                    words: color_words::<DI::Word, M::ColorFormat>(selection),
                                },
                            ],
                            r,
                        )
                    }
            }),
    {
        let bounds = self.bounding_box();
        let region = intersection(area, &bounds);
        self.fill_contiguous_in(area, &region, colors)
    }
}

/// Whether a display that slept as `start` says sleeps after the sleep
/// (`to_sleep`) and wake calls given, of which those in `succeeded` succeeded:
/// the last call that succeeded decides.
pub open spec fn asleep_after(start: bool, to_sleep: Seq<bool>, succeeded: Seq<bool>) -> bool
    decreases to_sleep.len(),
{
    if to_sleep.len() == 0 {
        start
    } else if succeeded[to_sleep.len() - 1] {
        to_sleep.last()
    } else {
        asleep_after(start, to_sleep.drop_last(), succeeded.drop_last())
    }
}

/// How many colors of a contiguous fill of `area` lie before the first pixel
/// of `region`: the rows above it and the pixels left of it in its first row.
pub open spec fn initial_skip(area: Rectangle, region: Rectangle) -> int {
    (if region.top_left.y > area.top_left.y {
        (region.top_left.y - area.top_left.y) * area.size.width
    } else {
        0
    }) + (if region.top_left.x > area.top_left.x {
        region.top_left.x - area.top_left.x
    } else {
        0
    })
}

/// The position of the first color that a contiguous fill of `area` draws when
/// only `region` of it lies on the display.
pub open spec fn fill_start(area: Rectangle, region: Rectangle) -> int {
    if region == area {
        0
    } else {
        initial_skip(area, region)
    }
}

/// The pixel count of an area of at most 2^16 - 1 by 2^16 - 1 pixels fits in 32 bits.
proof fn lemma_area_fits_u32(width: u32, height: u32)
    requires
        width <= u16::MAX,
        height <= u16::MAX,
    ensures
        width * height <= u32::MAX,
{
    assert(width * height <= 65535 * 65535) by (nonlinear_arith)
        requires
            width <= 65535,
            height <= 65535,
    ;
}

} // verus!
