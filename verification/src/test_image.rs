//! Test image.
//!
//! The test image can be used to check if the display is working and to
//! identify the correct orientation and color settings.
//!
//! - There should be a one pixel white border around the display.
//!   Modify the display size and display offset settings of the builder, if at
//!   least one edge of the white border isn't drawn or if there is a gap
//!   between the white border and the edge of the display.
//! - A white triangle should be drawn in the top left corner and the RGB label
//!   text should not be mirrored. Modify the orientation setting to rotate and
//!   mirror the display until the test image is displayed correctly. Note that
//!   the white triangle might not be visible on displays with rounded corners.
//! - The colored bars should match the labels. Use the color inversion and
//!   color order settings until the colored bars and labels match.

use core::marker::PhantomData;

use vstd::prelude::*;

use crate::geometry::{
    center_offset, covers, offset_length, rectangle_center, rectangle_offset,
    rectangle_resized_width, rectangle_with_center, with_center_computable, AnchorX, Point,
    Rectangle, Size,
};

verus! {

/// The width of the white border around the image.
pub const BORDER_WIDTH: u32 = 1;

/// The space between the border and the color bars.
pub const BORDER_PADDING: u32 = 4;

/// The width and height of the triangle in the top left corner.
pub const TOP_LEFT_MARKER_SIZE: u32 = 20;

/// A color of the test image.
#[derive(Debug, Clone, Copy, PartialEq, Eq, Structural)]
pub enum TestColor {
    /// Black.
    Black,
    /// White.
    White,
    /// Red.
    Red,
    /// Green.
    Green,
    /// Blue.
    Blue,
}

/// One drawing request of the test image.
#[derive(Debug, Clone, PartialEq, Eq)]
pub enum TestDraw {
    /// Fill an area with one color.
    FillSolid { area: Rectangle, color: TestColor },
    /// Fill an area with colors, row by row.
    FillContiguous { area: Rectangle, colors: Vec<TestColor> },
}

/// What a drawing request asks for.
pub ghost enum DrawRequest {
    /// Fill an area with one color.
    Solid { area: Rectangle, color: TestColor },
    /// Fill an area with colors, row by row.
    Contiguous { area: Rectangle, colors: Seq<TestColor> },
}

/// What a drawing request asks for.
pub open spec fn request_of(d: TestDraw) -> DrawRequest {
    match d {
        TestDraw::FillSolid { area, color } => DrawRequest::Solid { area, color },
        TestDraw::FillContiguous { area, colors } => DrawRequest::Contiguous { area, colors: colors@ },
    }
}

/// Test image.
pub struct TestImage<C> {
    color_type: PhantomData<C>,
}

impl<C> TestImage<C> {
    /// Creates a new test image
    pub fn new() -> (r: Self) {
        Self { color_type: PhantomData }
    }
}

/// The letter R, 9 by 11 pixels, row by row; 1 for a pixel of the letter.
pub open spec fn glyph_r() -> Seq<u8> {
    seq![
        0, 0, 0, 0, 0, 0, 0, 0, 0,
        0, 0, 0, 0, 0, 0, 0, 0, 0,
        0, 0, 1, 1, 1, 1, 0, 0, 0,
        0, 0, 1, 0, 0, 0, 1, 0, 0,
        0, 0, 1, 0, 0, 0, 1, 0, 0,
        0, 0, 1, 1, 1, 1, 0, 0, 0,
        0, 0, 1, 0, 1, 0, 0, 0, 0,
        0, 0, 1, 0, 0, 1, 0, 0, 0,
        0, 0, 1, 0, 0, 0, 1, 0, 0,
        0, 0, 0, 0, 0, 0, 0, 0, 0,
        0, 0, 0, 0, 0, 0, 0, 0, 0,
    ]
}

/// The letter G, 9 by 11 pixels, row by row; 1 for a pixel of the letter.
pub open spec fn glyph_g() -> Seq<u8> {
    seq![
        0, 0, 0, 0, 0, 0, 0, 0, 0,
        0, 0, 0, 0, 0, 0, 0, 0, 0,
        0, 0, 0, 1, 1, 1, 1, 0, 0,
        0, 0, 1, 0, 0, 0, 0, 0, 0,
        0, 0, 1, 0, 0, 0, 0, 0, 0,
        0, 0, 1, 0, 1, 1, 1, 0, 0,
        0, 0, 1, 0, 0, 0, 1, 0, 0,
        0, 0, 1, 0, 0, 0, 1, 0, 0,
        0, 0, 0, 1, 1, 1, 1, 0, 0,
        0, 0, 0, 0, 0, 0, 0, 0, 0,
        0, 0, 0, 0, 0, 0, 0, 0, 0,
    ]
}

/// The letter B, 9 by 11 pixels, row by row; 1 for a pixel of the letter.
pub open spec fn glyph_b() -> Seq<u8> {
    seq![
        0, 0, 0, 0, 0, 0, 0, 0, 0,
        0, 0, 0, 0, 0, 0, 0, 0, 0,
        0, 0, 1, 1, 1, 1, 0, 0, 0,
        0, 0, 1, 0, 0, 0, 1, 0, 0,
        0, 0, 1, 0, 0, 0, 1, 0, 0,
        0, 0, 1, 1, 1, 1, 0, 0, 0,
        0, 0, 1, 0, 0, 0, 1, 0, 0,
        0, 0, 1, 0, 0, 0, 1, 0, 0,
        0, 0, 1, 1, 1, 1, 0, 0, 0,
        0, 0, 0, 0, 0, 0, 0, 0, 0,
        0, 0, 0, 0, 0, 0, 0, 0, 0,
    ]
}

fn glyph_r_data() -> (d: [u8; 99])
    ensures
        d@ == glyph_r(),
{
    let d = [
        0, 0, 0, 0, 0, 0, 0, 0, 0,
        0, 0, 0, 0, 0, 0, 0, 0, 0,
        0, 0, 1, 1, 1, 1, 0, 0, 0,
        0, 0, 1, 0, 0, 0, 1, 0, 0,
        0, 0, 1, 0, 0, 0, 1, 0, 0,
        0, 0, 1, 1, 1, 1, 0, 0, 0,
        0, 0, 1, 0, 1, 0, 0, 0, 0,
        0, 0, 1, 0, 0, 1, 0, 0, 0,
        0, 0, 1, 0, 0, 0, 1, 0, 0,
        0, 0, 0, 0, 0, 0, 0, 0, 0,
        0, 0, 0, 0, 0, 0, 0, 0, 0,
    ];
    assert(d@ =~= glyph_r());
    d
}

fn glyph_g_data() -> (d: [u8; 99])
    ensures
        d@ == glyph_g(),
{
    let d = [
        0, 0, 0, 0, 0, 0, 0, 0, 0,
        0, 0, 0, 0, 0, 0, 0, 0, 0,
        0, 0, 0, 1, 1, 1, 1, 0, 0,
        0, 0, 1, 0, 0, 0, 0, 0, 0,
        0, 0, 1, 0, 0, 0, 0, 0, 0,
        0, 0, 1, 0, 1, 1, 1, 0, 0,
        0, 0, 1, 0, 0, 0, 1, 0, 0,
        0, 0, 1, 0, 0, 0, 1, 0, 0,
        0, 0, 0, 1, 1, 1, 1, 0, 0,
        0, 0, 0, 0, 0, 0, 0, 0, 0,
        0, 0, 0, 0, 0, 0, 0, 0, 0,
    ];
    assert(d@ =~= glyph_g());
    d
}

fn glyph_b_data() -> (d: [u8; 99])
    ensures
        d@ == glyph_b(),
{
    let d = [
        0, 0, 0, 0, 0, 0, 0, 0, 0,
        0, 0, 0, 0, 0, 0, 0, 0, 0,
        0, 0, 1, 1, 1, 1, 0, 0, 0,
        0, 0, 1, 0, 0, 0, 1, 0, 0,
        0, 0, 1, 0, 0, 0, 1, 0, 0,
        0, 0, 1, 1, 1, 1, 0, 0, 0,
        0, 0, 1, 0, 0, 0, 1, 0, 0,
        0, 0, 1, 0, 0, 0, 1, 0, 0,
        0, 0, 1, 1, 1, 1, 0, 0, 0,
        0, 0, 0, 0, 0, 0, 0, 0, 0,
        0, 0, 0, 0, 0, 0, 0, 0, 0,
    ];
    assert(d@ =~= glyph_b());
    d
}

/// The colors of a glyph: white for the pixels of the letter, black elsewhere.
pub open spec fn glyph_colors(glyph: Seq<u8>) -> Seq<TestColor> {
    glyph.map_values(|d: u8| if d == 0 { TestColor::Black } else { TestColor::White })
}

/// The size of a glyph.
pub open spec fn glyph_size() -> Size {
    Size { width: 9, height: 11 }
}

/// Draws a letter centered on a point.
pub open spec fn character_request(glyph: Seq<u8>, center: Point) -> DrawRequest {
    DrawRequest::Contiguous {
        area: rectangle_with_center(center, glyph_size()),
        colors: glyph_colors(glyph),
    }
}

/// The colors of the border drawing: row by row over the bounding box, black
/// where the box shrunk by the border width covers the point, white elsewhere.
pub open spec fn border_colors(bounding_box: Rectangle) -> Seq<TestColor> {
    let inner = rectangle_offset(bounding_box, (-(BORDER_WIDTH as int)) as i32);
    let w = bounding_box.size.width as int;
    Seq::new(
        (bounding_box.size.width * bounding_box.size.height) as nat,
        |i: int|
            if covers(
                inner,
                Point {
                    x: (bounding_box.top_left.x + i % w) as i32,
                    y: (bounding_box.top_left.y + i / w) as i32,
                },
            ) {
                TestColor::Black
            } else {
                TestColor::White
            },
    )
}

/// The area of the color bars: the bounding box shrunk by the border and the
/// padding.
pub open spec fn color_bar_area(bounding_box: Rectangle) -> Rectangle {
    rectangle_offset(bounding_box, (-((BORDER_WIDTH + BORDER_PADDING) as int)) as i32)
}

/// The drawing requests of the color bars: green over the whole area, then
/// red over its left third and blue over its right third, each with its
/// letter at its center.
pub open spec fn color_bar_requests(area: Rectangle) -> Seq<DrawRequest> {
    let left = rectangle_resized_width(area, area.size.width / 3, AnchorX::Left);
    let right = rectangle_resized_width(area, area.size.width / 3, AnchorX::Right);
    seq![
        DrawRequest::Solid { area, color: TestColor::Green },
        character_request(glyph_g(), rectangle_center(area)),
        DrawRequest::Solid { area: left, color: TestColor::Red },
        character_request(glyph_r(), rectangle_center(left)),
        DrawRequest::Solid { area: right, color: TestColor::Blue },
        character_request(glyph_b(), rectangle_center(right)),
    ]
}

/// The drawing requests of the triangle in the top left corner of `area`: one
/// white row for each row of the triangle, each one pixel shorter than the one
/// above.
pub open spec fn marker_requests(area: Rectangle, size: u32) -> Seq<DrawRequest> {
    Seq::new(
        size as nat,
        |k: int|
            DrawRequest::Solid {
                area: Rectangle {
                    top_left: Point { x: area.top_left.x, y: (area.top_left.y + k) as i32 },
                    size: Size { width: (size - k) as u32, height: 1 },
                },
                color: TestColor::White,
            },
    )
}

/// The drawing requests of the test image on a target with the given bounding
/// box: the border, the color bars with their letters, and the triangle.
pub open spec fn test_image_requests(bounding_box: Rectangle) -> Seq<DrawRequest> {
    seq![
        DrawRequest::Contiguous { area: bounding_box, colors: border_colors(bounding_box) },
    ] + color_bar_requests(color_bar_area(bounding_box)) + marker_requests(
        color_bar_area(bounding_box),
        TOP_LEFT_MARKER_SIZE,
    )
}

/// Whether the test image can be laid out on a target with the given bounding
/// box: the box lies at least 32 pixels inside the range of `i32` coordinates,
/// its sides are at most `i32::MAX` long, and its pixel count fits in a
/// `usize`.
pub open spec fn test_image_fits(bounding_box: Rectangle) -> bool {
    &&& i32::MIN + 32 <= bounding_box.top_left.x
    &&& i32::MIN + 32 <= bounding_box.top_left.y
    &&& bounding_box.top_left.x + bounding_box.size.width + 32 <= i32::MAX
    &&& bounding_box.top_left.y + bounding_box.size.height + 32 <= i32::MAX
    &&& bounding_box.size.width <= i32::MAX
    &&& bounding_box.size.height <= i32::MAX
    &&& bounding_box.size.width * bounding_box.size.height <= usize::MAX
}

/// Returns whether the test image can be laid out on a target with the given
/// bounding box.
pub fn fits_test_image(bounding_box: &Rectangle) -> (b: bool)
    ensures
        b == test_image_fits(*bounding_box),
{
    let x = bounding_box.top_left.x as i64;
    let y = bounding_box.top_left.y as i64;
    let w = bounding_box.size.width as i64;
    let h = bounding_box.size.height as i64;
    if !(x >= -0x8000_0000 + 32 && y >= -0x8000_0000 + 32 && x + w + 32 <= 0x7fff_ffff && y + h
        + 32 <= 0x7fff_ffff && w <= 0x7fff_ffff && h <= 0x7fff_ffff) {
        return false;
    }
    let (w64, h64) = (bounding_box.size.width as u64, bounding_box.size.height as u64);
    assert(w64 * h64 <= 0x7fff_ffff * 0x7fff_ffffu64) by (nonlinear_arith)
        requires
            w64 <= 0x7fff_ffff,
            h64 <= 0x7fff_ffff,
    ;
    let pixels: u64 = w64 * h64;
    pixels <= usize::MAX as u64
}

impl<C> TestImage<C> {
    /// Returns the drawing requests that draw the test image on a target with
    /// the given bounding box, in order.
    pub fn draw_requests(&self, bounding_box: Rectangle) -> (r: Vec<TestDraw>)
        requires
            test_image_fits(bounding_box),
        ensures
            r@.map_values(|d: TestDraw| request_of(d)) == test_image_requests(bounding_box),
    {
        let mut out: Vec<TestDraw> = Vec::new();
        let border = border_draw(bounding_box);
        out.push(border);
        let area = color_bar_area_of(bounding_box);
        color_bar_draws(&mut out, area);
        marker_draws(&mut out, area, TOP_LEFT_MARKER_SIZE);
        assert(out@.map_values(|d: TestDraw| request_of(d)) =~= test_image_requests(bounding_box));
        out
    }
}

/// Returns the area of the color bars.
fn color_bar_area_of(bounding_box: Rectangle) -> (r: Rectangle)
    requires
        test_image_fits(bounding_box),
    ensures
        r == color_bar_area(bounding_box),
        i32::MIN + 24 <= r.top_left.x,
        i32::MIN + 24 <= r.top_left.y,
        r.top_left.x + r.size.width + 24 <= i32::MAX,
        r.top_left.y + r.size.height + 24 <= i32::MAX,
{
    bounding_box.offset(-((BORDER_WIDTH + BORDER_PADDING) as i32))
}

/// Returns the drawing of the border.
fn border_draw(bounding_box: Rectangle) -> (r: TestDraw)
    requires
        test_image_fits(bounding_box),
    ensures
        request_of(r) == (DrawRequest::Contiguous {
            area: bounding_box,
            colors: border_colors(bounding_box),
        }),
{
    let inner = bounding_box.offset(-(BORDER_WIDTH as i32));
    proof {
        lemma_shrunk_representable(bounding_box, BORDER_WIDTH as int);
    }
    let w = bounding_box.size.width;
    let h = bounding_box.size.height;
    let mut colors: Vec<TestColor> = Vec::new();
    let mut row: u32 = 0;
    while row < h
        invariant
            test_image_fits(bounding_box),
            inner == rectangle_offset(bounding_box, (-(BORDER_WIDTH as int)) as i32),
            inner.is_representable(),
            w == bounding_box.size.width,
            h == bounding_box.size.height,
            row <= h,
            colors@.len() == row * w,
            forall|i: int| 0 <= i < colors@.len() ==> #[trigger] colors@[i] == border_colors(bounding_box)[i],
        decreases h - row,
    {
        let mut column: u32 = 0;
        while column < w
            invariant
                test_image_fits(bounding_box),
                inner == rectangle_offset(bounding_box, (-(BORDER_WIDTH as int)) as i32),
                inner.is_representable(),
                w == bounding_box.size.width,
                h == bounding_box.size.height,
                row < h,
                column <= w,
                colors@.len() == row * w + column,
                forall|i: int|
                    0 <= i < colors@.len() ==> #[trigger] colors@[i] == border_colors(bounding_box)[i],
            decreases w - column,
        {
            let p = Point {
                x: (bounding_box.top_left.x as i64 + column as i64) as i32,
                y: (bounding_box.top_left.y as i64 + row as i64) as i32,
            };
            let color = if inner.contains(p) {
                TestColor::Black
            } else {
                TestColor::White
            };
            proof {
                let i = row * w + column;
                assert(i < w * h) by (nonlinear_arith)
                    requires
                        row < h,
                        column < w,
                        i == row * w + column,
                ;
                vstd::arithmetic::div_mod::lemma_fundamental_div_mod_converse(
                    i as int,
                    w as int,
                    row as int,
                    column as int,
                );
            }
            colors.push(color);
            column = column + 1;
        }
        proof {
            assert((row + 1) * w == row * w + w) by (nonlinear_arith);
        }
        row = row + 1;
    }
    proof {
        assert(h * w == w * h) by (nonlinear_arith);
        assert(colors@ =~= border_colors(bounding_box));
    }
    TestDraw::FillContiguous { area: bounding_box, colors }
}

/// A rectangle that fits the test image, shrunk by `d` on every side, can be
/// represented.
proof fn lemma_shrunk_representable(r: Rectangle, d: int)
    requires
        test_image_fits(r),
        0 <= d <= 16,
    ensures
        rectangle_offset(r, (-d) as i32).is_representable(),
{
    let s = rectangle_offset(r, (-d) as i32);
    lemma_shrunk_side(r.top_left.x as int, r.size.width, d);
    lemma_shrunk_side(r.top_left.y as int, r.size.height, d);
}

/// Along one side: a side of length `len` from `start`, shrunk by `d` on both
/// ends around its center, starts no earlier and ends no later.
proof fn lemma_shrunk_side(start: int, len: u32, d: int)
    requires
        0 <= d <= 16,
        i32::MIN + 32 <= start,
        start + len + 32 <= i32::MAX,
        len <= i32::MAX,
    ensures
        ({
            let shrunk = offset_length(len, (-d) as i32);
            &&& shrunk <= len
            &&& start <= start + center_offset(len) - center_offset(shrunk)
            &&& start + center_offset(len) - center_offset(shrunk) + shrunk <= start + len
        }),
{
    let shrunk = offset_length(len, (-d) as i32);
    if len - 2 * d > 0 {
        assert(shrunk == len - 2 * d);
        assert(center_offset(shrunk) == center_offset(len) - d);
    } else {
        assert(shrunk == 0);
    }
}

/// Returns the drawing of a letter centered on a point.
fn character_draw(glyph: &[u8], center: Point) -> (r: TestDraw)
    requires
        glyph@.len() == 99,
        with_center_computable(center, glyph_size()),
    ensures
        request_of(r) == character_request(glyph@, center),
{
    let area = Rectangle::with_center(center, Size { width: 9, height: 11 });
    let mut colors: Vec<TestColor> = Vec::new();
    let mut i: usize = 0;
    while i < glyph.len()
        invariant
            i <= glyph@.len(),
            colors@ == glyph_colors(glyph@.take(i as int)),
        decreases glyph@.len() - i,
    {
        let color = if glyph[i] == 0 {
            TestColor::Black
        } else {
            TestColor::White
        };
        colors.push(color);
        proof {
            assert(glyph@.take(i + 1) =~= glyph@.take(i as int).push(glyph@[i as int]));
            assert(glyph_colors(glyph@.take(i + 1)) =~= glyph_colors(glyph@.take(i as int)).push(
                color,
            ));
        }
        i = i + 1;
    }
    assert(glyph@.take(glyph@.len() as int) =~= glyph@);
    TestDraw::FillContiguous { area, colors }
}

/// Appends the drawings of the color bars and their letters.
fn color_bar_draws(out: &mut Vec<TestDraw>, area: Rectangle)
    requires
        i32::MIN + 24 <= area.top_left.x,
        i32::MIN + 24 <= area.top_left.y,
        area.top_left.x + area.size.width + 24 <= i32::MAX,
        area.top_left.y + area.size.height + 24 <= i32::MAX,
    ensures
        final(out)@.map_values(|d: TestDraw| request_of(d)) == old(out)@.map_values(
            |d: TestDraw| request_of(d),
        ) + color_bar_requests(area),
{
    let ghost before = out@;
    let third = area.size.width / 3;
    out.push(TestDraw::FillSolid { area, color: TestColor::Green });
    let g = glyph_g_data();
    out.push(character_draw(g.as_slice(), area.center()));
    let left = area.resized_width(third, AnchorX::Left);
    out.push(TestDraw::FillSolid { area: left, color: TestColor::Red });
    let r = glyph_r_data();
    out.push(character_draw(r.as_slice(), left.center()));
    let right = area.resized_width(third, AnchorX::Right);
    out.push(TestDraw::FillSolid { area: right, color: TestColor::Blue });
    let b = glyph_b_data();
    out.push(character_draw(b.as_slice(), right.center()));
    assert(out@.map_values(|d: TestDraw| request_of(d)) =~= before.map_values(
        |d: TestDraw| request_of(d),
    ) + color_bar_requests(area));
}

/// Appends the drawings of the triangle in the top left corner of `area`.
fn marker_draws(out: &mut Vec<TestDraw>, area: Rectangle, size: u32)
    requires
        area.top_left.y + size <= i32::MAX,
    ensures
        final(out)@.map_values(|d: TestDraw| request_of(d)) == old(out)@.map_values(
            |d: TestDraw| request_of(d),
        ) + marker_requests(area, size),
{
    let ghost before = out@.map_values(|d: TestDraw| request_of(d));
    let mut rect = Rectangle {
        top_left: area.top_left,
        size: Size { width: size, height: 1 },
    };
    let ghost mut k: int = 0;
    while rect.size.width > 0
        invariant
            0 <= k <= size,
            rect.size.width == size - k,
            rect.size.height == 1,
            rect.top_left.x == area.top_left.x,
            rect.top_left.y == area.top_left.y + k,
            area.top_left.y + size <= i32::MAX,
            out@.map_values(|d: TestDraw| request_of(d)) == before + marker_requests(area, size).take(k),
        decreases rect.size.width,
    {
        let ghost prev = out@;
        let row = TestDraw::FillSolid { area: rect, color: TestColor::White };
        out.push(row);
        proof {
            assert(request_of(row) == marker_requests(area, size)[k]);
            assert(out@.map_values(|d: TestDraw| request_of(d)) =~= prev.map_values(
                |d: TestDraw| request_of(d),
            ).push(request_of(row)));
            assert(marker_requests(area, size).take(k + 1) =~= marker_requests(area, size).take(k).push(
                marker_requests(area, size)[k],
            ));
            k = k + 1;
        }
        rect.top_left.y = rect.top_left.y + 1;
        rect.size.width = rect.size.width - 1;
    }
    assert(marker_requests(area, size).take(k) =~= marker_requests(area, size));
}

/// Law: every color bar of the test image is labeled with the letter of its
/// color, centered on it: the request after the one that fills an area red,
/// green or blue draws that color's letter at the center of the area. The
/// image has one bar of each of these colors.
pub proof fn color_bars_are_labeled_with_their_color(bounding_box: Rectangle)
    ensures
        ({
            let requests = test_image_requests(bounding_box);
            &&& forall|i: int|
                #![trigger requests[i]]
                0 <= i < requests.len() ==> match requests[i] {
                    DrawRequest::Solid { area, color } => {
                        &&& color == TestColor::Red ==> i + 1 < requests.len() && requests[i + 1]
                            == character_request(glyph_r(), rectangle_center(area))
                        &&& color == TestColor::Green ==> i + 1 < requests.len() && requests[i + 1]
                            == character_request(glyph_g(), rectangle_center(area))
                        &&& color == TestColor::Blue ==> i + 1 < requests.len() && requests[i + 1]
                            == character_request(glyph_b(), rectangle_center(area))
                    },
                    _ => true,
                }
            &&& exists|i: int|
                0 <= i < requests.len() && (#[trigger] requests[i]) is Solid && requests[i]->color
                    == TestColor::Red
            &&& exists|i: int|
                0 <= i < requests.len() && (#[trigger] requests[i]) is Solid && requests[i]->color
                    == TestColor::Green
            &&& exists|i: int|
                0 <= i < requests.len() && (#[trigger] requests[i]) is Solid && requests[i]->color
                    == TestColor::Blue
        }),
{
    let requests = test_image_requests(bounding_box);
    let bars = color_bar_requests(color_bar_area(bounding_box));
    let markers = marker_requests(color_bar_area(bounding_box), TOP_LEFT_MARKER_SIZE);
    assert(requests.len() == 7 + markers.len());
    assert forall|i: int|
        #![trigger requests[i]]
        0 <= i < requests.len() implies match requests[i] {
        DrawRequest::Solid { area, color } => {
            &&& color == TestColor::Red ==> i + 1 < requests.len() && requests[i + 1]
                == character_request(glyph_r(), rectangle_center(area))
            &&& color == TestColor::Green ==> i + 1 < requests.len() && requests[i + 1]
                == character_request(glyph_g(), rectangle_center(area))
            &&& color == TestColor::Blue ==> i + 1 < requests.len() && requests[i + 1]
                == character_request(glyph_b(), rectangle_center(area))
        },
        _ => true,
    } by {
        if i >= 7 {
            assert(requests[i] == markers[i - 7]);
        } else if i >= 1 {
            assert(requests[i] == bars[i - 1]);
            if i + 1 < 7 {
                assert(requests[i + 1] == bars[i]);
            }
        }
    }
    assert(requests[1] == bars[0]);
    assert(requests[3] == bars[2]);
    assert(requests[5] == bars[4]);
}

/// Law: the three letters are told apart: only R has a leg running down to
/// the right (row 6, column 4), only B closes its lower bowl (row 8, column 3),
/// and only G leaves its upper right open (row 3, column 6).
pub proof fn labels_are_distinct_letters()
    ensures
        glyph_r()[6 * 9 + 4int] == 1 && glyph_b()[6 * 9 + 4int] == 0 && glyph_g()[6 * 9 + 4int] == 0,
        glyph_b()[8 * 9 + 3int] == 1 && glyph_r()[8 * 9 + 3int] == 0,
        glyph_g()[3 * 9 + 6int] == 0 && glyph_r()[3 * 9 + 6int] == 1 && glyph_b()[3 * 9 + 6int] == 1,
{
}

} // verus!
