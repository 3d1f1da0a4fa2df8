//! Points, sizes and rectangles of the drawing area.

use vstd::prelude::*;

use embedded_graphics_core::geometry::Point as EgPoint;
use embedded_graphics_core::geometry::Size as EgSize;
use embedded_graphics_core::primitives::Rectangle as EgRectangle;

verus! {

/// A point on the drawing area.
#[derive(Debug, Clone, Copy, PartialEq, Eq, Structural)]
pub struct Point {
    /// The x coordinate.
    pub x: i32,
    /// The y coordinate.
    pub y: i32,
}

/// The size of an area.
#[derive(Debug, Clone, Copy, PartialEq, Eq, Structural)]
pub struct Size {
    /// The width.
    pub width: u32,
    /// The height.
    pub height: u32,
}

/// A rectangle given by its top left corner and its size.
#[derive(Debug, Clone, Copy, PartialEq, Eq, Structural)]
pub struct Rectangle {
    /// The top left corner.
    pub top_left: Point,
    /// The size.
    pub size: Size,
}

impl Rectangle {
    /// Whether the rectangle covers at least one pixel.
    pub open spec fn is_nonempty(self) -> bool {
        self.size.width > 0 && self.size.height > 0
    }

    /// Whether the bottom right corner of the rectangle can be computed: either the
    /// rectangle is empty, or its extent fits the coordinate range.
    pub open spec fn is_representable(self) -> bool {
        self.is_nonempty() ==> {
            &&& self.size.width <= i32::MAX
            &&& self.size.height <= i32::MAX
            &&& self.top_left.x + self.size.width <= i32::MAX
            &&& self.top_left.y + self.size.height <= i32::MAX
        }
    }

    /// Whether every pixel of this rectangle lies in `outer`.
    pub open spec fn lies_within(self, outer: Rectangle) -> bool {
        &&& outer.top_left.x <= self.top_left.x
        &&& outer.top_left.y <= self.top_left.y
        &&& self.top_left.x + self.size.width <= outer.top_left.x + outer.size.width
        &&& self.top_left.y + self.size.height <= outer.top_left.y + outer.size.height
    }

    /// Creates a rectangle.
    pub fn new(top_left: Point, size: Size) -> (r: Rectangle)
        ensures
            r.top_left == top_left,
            r.size == size,
    {
        Rectangle { top_left, size }
    }

    /// Returns the bottom right corner of the rectangle, or `None` if it is empty.
    /// Returns whether the rectangle's corners can be represented.
    pub fn fits(&self) -> (b: bool)
        ensures
            b == self.is_representable(),
    {
        if self.size.width == 0 || self.size.height == 0 {
            return true;
        }
        self.size.width <= 0x7fff_ffff && self.size.height <= 0x7fff_ffff && self.top_left.x as i64
            + self.size.width as i64 <= 0x7fff_ffff && self.top_left.y as i64
            + self.size.height as i64 <= 0x7fff_ffff
    }

    pub fn bottom_right(&self) -> (r: Option<Point>)
        requires
            self.is_representable(),
        ensures
            match r {
                Some(p) => self.is_nonempty() && p.x == self.top_left.x + self.size.width - 1
                    && p.y == self.top_left.y + self.size.height - 1,
                None => !self.is_nonempty(),
            },
    {
        if self.size.width > 0 && self.size.height > 0 {
            Some(
                Point {
                    x: self.top_left.x + self.size.width as i32 - 1,
                    y: self.top_left.y + self.size.height as i32 - 1,
                },
            )
        } else {
            None
        }
    }
}

/// Which edge of a rectangle stays in place when its width changes.
#[derive(Debug, Clone, Copy, PartialEq, Eq, Structural)]
pub enum AnchorX {
    /// The left edge.
    Left,
    /// The right edge.
    Right,
}

/// How far the center of a rectangle lies from its top left corner along a
/// side of the given length: half of one less than the length, rounded down,
/// and zero for a length of zero.
pub open spec fn center_offset(len: u32) -> int {
    if len > 0 {
        (len - 1) / 2
    } else {
        0
    }
}

/// The center point of a rectangle, rounded towards its top left corner.
pub open spec fn rectangle_center(r: Rectangle) -> Point {
    Point {
        x: (r.top_left.x + center_offset(r.size.width)) as i32,
        y: (r.top_left.y + center_offset(r.size.height)) as i32,
    }
}

/// Whether the center of a rectangle can be represented.
pub open spec fn center_computable(r: Rectangle) -> bool {
    &&& r.top_left.x + center_offset(r.size.width) <= i32::MAX
    &&& r.top_left.y + center_offset(r.size.height) <= i32::MAX
}

/// The rectangle of the given size around a center point.
pub open spec fn rectangle_with_center(center: Point, size: Size) -> Rectangle {
    Rectangle {
        top_left: Point {
            x: (center.x - center_offset(size.width)) as i32,
            y: (center.y - center_offset(size.height)) as i32,
        },
        size,
    }
}

/// Whether the top left corner of a rectangle around a center point can be
/// represented.
pub open spec fn with_center_computable(center: Point, size: Size) -> bool {
    &&& center.x - center_offset(size.width) >= i32::MIN
    &&& center.y - center_offset(size.height) >= i32::MIN
}

/// A length grown by `delta` on both ends, or shrunk where `delta` is
/// negative, saturating at the bounds of `u32`.
pub open spec fn offset_length(len: u32, delta: i32) -> u32 {
    let grown = len + 2 * delta;
    if grown < 0 {
        0
    } else if grown > u32::MAX {
        u32::MAX
    } else {
        grown as u32
    }
}

/// A rectangle grown by `delta` on every side, or shrunk where `delta` is
/// negative, around the same center.
pub open spec fn rectangle_offset(r: Rectangle, delta: i32) -> Rectangle {
    rectangle_with_center(
        rectangle_center(r),
        Size {
            width: offset_length(r.size.width, delta),
            height: offset_length(r.size.height, delta),
        },
    )
}

/// A length as an `i32`, saturating at `i32::MAX`, and at least one.
pub open spec fn anchor_length(len: u32) -> int {
    if len == 0 {
        1
    } else if len > i32::MAX {
        i32::MAX as int
    } else {
        len as int
    }
}

/// A rectangle with a new width and the given edge kept in place.
pub open spec fn rectangle_resized_width(r: Rectangle, width: u32, anchor: AnchorX) -> Rectangle {
    let x = match anchor {
        AnchorX::Left => r.top_left.x as int,
        AnchorX::Right => r.top_left.x + anchor_length(r.size.width) - anchor_length(width),
    };
    Rectangle {
        top_left: Point { x: x as i32, y: r.top_left.y },
        size: Size { width, height: r.size.height },
    }
}

impl Rectangle {
    /// Returns the center point of the rectangle, rounded towards its top left
    /// corner.
    pub fn center(&self) -> (p: Point)
        requires
            center_computable(*self),
        ensures
            p == rectangle_center(*self),
    {
        let cw = self.size.width.saturating_sub(1) / 2;
        let ch = self.size.height.saturating_sub(1) / 2;
        Point { x: self.top_left.x + cw as i32, y: self.top_left.y + ch as i32 }
    }

    /// Returns the rectangle of the given size around a center point.
    pub fn with_center(center: Point, size: Size) -> (r: Rectangle)
        requires
            with_center_computable(center, size),
        ensures
            r == rectangle_with_center(center, size),
    {
        let cw = size.width.saturating_sub(1) / 2;
        let ch = size.height.saturating_sub(1) / 2;
        Rectangle { top_left: Point { x: center.x - cw as i32, y: center.y - ch as i32 }, size }
    }

    /// Returns the rectangle grown by `delta` on every side, or shrunk where
    /// `delta` is negative, around the same center.
    pub fn offset(&self, delta: i32) -> (r: Rectangle)
        requires
            delta > i32::MIN,
            center_computable(*self),
            with_center_computable(
                rectangle_center(*self),
                rectangle_offset(*self, delta).size,
            ),
        ensures
            r == rectangle_offset(*self, delta),
    {
        let size = if delta >= 0 {
            let grow = delta as u32 * 2;
            Size {
                width: self.size.width.saturating_add(grow),
                height: self.size.height.saturating_add(grow),
            }
        } else {
            let shrink = (-delta) as u32 * 2;
            Size {
                width: self.size.width.saturating_sub(shrink),
                height: self.size.height.saturating_sub(shrink),
            }
        };
        Rectangle::with_center(self.center(), size)
    }

    /// Returns the rectangle with a new width and the given edge kept in place.
    pub fn resized_width(&self, width: u32, anchor: AnchorX) -> (r: Rectangle)
        requires
            anchor is Right ==> i32::MIN <= self.top_left.x + anchor_length(self.size.width)
                - anchor_length(width) <= i32::MAX,
        ensures
            r == rectangle_resized_width(*self, width, anchor),
    {
        let x = match anchor {
            AnchorX::Left => self.top_left.x,
            AnchorX::Right => {
                let old_len: i32 = if self.size.width == 0 {
                    1
                } else if self.size.width > 0x7fff_ffff {
                    0x7fff_ffff
                } else {
                    self.size.width as i32
                };
                let new_len: i32 = if width == 0 {
                    1
                } else if width > 0x7fff_ffff {
                    0x7fff_ffff
                } else {
                    width as i32
                };
                self.top_left.x + (old_len - new_len)
            },
        };
        Rectangle { top_left: Point { x, y: self.top_left.y }, size: Size { width, height: self.size.height } }
    }

    /// Returns whether the rectangle covers a point.
    pub fn contains(&self, p: Point) -> (b: bool)
        requires
            self.is_representable(),
        ensures
            b == covers(*self, p),
    {
        if self.size.width == 0 || self.size.height == 0 {
            return false;
        }
        self.top_left.x <= p.x && p.x <= self.top_left.x + (self.size.width - 1) as i32
            && self.top_left.y <= p.y && p.y <= self.top_left.y + (self.size.height - 1) as i32
    }
}

/// Whether a rectangle covers a point.
pub open spec fn covers(r: Rectangle, p: Point) -> bool {
    &&& r.is_nonempty()
    &&& r.top_left.x <= p.x <= r.top_left.x + r.size.width - 1
    &&& r.top_left.y <= p.y <= r.top_left.y + r.size.height - 1
}

/// The rectangle of size zero at the origin.
pub open spec fn zero_rectangle() -> Rectangle {
    Rectangle { top_left: Point { x: 0, y: 0 }, size: Size { width: 0, height: 0 } }
}

/// The intersection of two rectangles: where both cover pixels and overlap,
/// the rectangle from the larger of their top left corners to the smaller of
/// their bottom right corners; where one covers no pixel, that one if the
/// other covers its top left corner; else the rectangle of size zero at the
/// origin.
pub open spec fn rectangle_intersection(a: Rectangle, b: Rectangle) -> Rectangle {
    if a.is_nonempty() && b.is_nonempty() {
        let left = if a.top_left.x < b.top_left.x {
            b.top_left.x
        } else {
            a.top_left.x
        };
        let top = if a.top_left.y < b.top_left.y {
            b.top_left.y
        } else {
            a.top_left.y
        };
        let a_right = a.top_left.x + a.size.width - 1;
        let b_right = b.top_left.x + b.size.width - 1;
        let a_bottom = a.top_left.y + a.size.height - 1;
        let b_bottom = b.top_left.y + b.size.height - 1;
        let right = if a_right < b_right {
            a_right
        } else {
            b_right
        };
        let bottom = if a_bottom < b_bottom {
            a_bottom
        } else {
            b_bottom
        };
        if left <= right && top <= bottom {
            Rectangle {
                top_left: Point { x: left, y: top },
                size: Size { width: (right - left + 1) as u32, height: (bottom - top + 1) as u32 },
            }
        } else {
            zero_rectangle()
        }
    } else if b.is_nonempty() {
        if covers(b, a.top_left) {
            a
        } else {
            zero_rectangle()
        }
    } else if a.is_nonempty() {
        if covers(a, b.top_left) {
            b
        } else {
            zero_rectangle()
        }
    } else {
        zero_rectangle()
    }
}

/// Computes the intersection of two rectangles with
/// `embedded_graphics_core::primitives::Rectangle::intersection`.
///
/// Trusted: the result is [`rectangle_intersection`], which is what that
/// method's source computes for rectangles whose corners can be represented:
/// it compares the ranges of columns and rows of the two, builds the overlap
/// from the larger top left and the smaller bottom right corner, keeps an empty
/// rectangle that lies inside the other one, and gives the zero rectangle
/// otherwise.
#[verifier::external_body]
pub(crate) fn intersection(a: &Rectangle, b: &Rectangle) -> (r: Rectangle)
    requires
        a.is_representable(),
        b.is_representable(),
    ensures
        r == rectangle_intersection(*a, *b),
{
    let ea = EgRectangle::new(
        EgPoint::new(a.top_left.x, a.top_left.y),
        EgSize::new(a.size.width, a.size.height),
    );
    let eb = EgRectangle::new(
        EgPoint::new(b.top_left.x, b.top_left.y),
        EgSize::new(b.size.width, b.size.height),
    );
    let er = ea.intersection(&eb);
    Rectangle {
        top_left: Point { x: er.top_left.x, y: er.top_left.y },
        size: Size { width: er.size.width, height: er.size.height },
    }
}

} // verus!
