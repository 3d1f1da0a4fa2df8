//! Model options and the helper types they are made of.

use vstd::prelude::*;

pub mod orientation;

verus! {

/// Display orientation of the address-mode command, with a mirror image flag.
#[derive(Clone, Copy, Debug, PartialEq, Eq, Structural)]
pub enum Orientation {
    /// Portrait orientation, with mirror image parameter
    Portrait(bool),
    /// Landscape orientation, with mirror image parameter
    Landscape(bool),
    /// Inverted Portrait orientation, with mirror image parameter
    PortraitInverted(bool),
    /// Inverted Lanscape orientation, with mirror image parameter
    LandscapeInverted(bool),
}

impl Default for Orientation {
    fn default() -> (r: Self)
        ensures
            r == Orientation::Portrait(false),
    {
        Orientation::Portrait(false)
    }
}

/// Color inversion.
#[derive(Copy, Clone, Debug, PartialEq, Eq, Structural)]
pub enum ColorInversion {
    /// Normal colors.
    Normal,
    /// Inverted colors.
    Inverted,
}

impl Default for ColorInversion {
    fn default() -> (r: Self)
        ensures
            r == ColorInversion::Normal,
    {
        ColorInversion::Normal
    }
}

/// Vertical refresh order.
#[derive(Copy, Clone, Debug, PartialEq, Eq, Structural)]
pub enum VerticalRefreshOrder {
    /// Refresh from top to bottom.
    TopToBottom,
    /// Refresh from bottom to top.
    BottomToTop,
}

impl Default for VerticalRefreshOrder {
    fn default() -> (r: Self)
        ensures
            r == VerticalRefreshOrder::TopToBottom,
    {
        VerticalRefreshOrder::TopToBottom
    }
}

impl VerticalRefreshOrder {
    /// The opposite of a vertical refresh order.
    pub open spec fn spec_flip(self) -> Self {
        match self {
            VerticalRefreshOrder::TopToBottom => VerticalRefreshOrder::BottomToTop,
            VerticalRefreshOrder::BottomToTop => VerticalRefreshOrder::TopToBottom,
        }
    }

    /// Returns the opposite refresh order.
    #[must_use]
    pub fn flip(self) -> (r: Self)
        ensures
            r == self.spec_flip(),
            r != self,
    {
        match self {
            Self::TopToBottom => Self::BottomToTop,
            Self::BottomToTop => Self::TopToBottom,
        }
    }
}

/// Horizontal refresh order.
#[derive(Copy, Clone, Debug, PartialEq, Eq, Structural)]
pub enum HorizontalRefreshOrder {
    /// Refresh from left to right.
    LeftToRight,
    /// Refresh from right to left.
    RightToLeft,
}

impl Default for HorizontalRefreshOrder {
    fn default() -> (r: Self)
        ensures
            r == HorizontalRefreshOrder::LeftToRight,
    {
        HorizontalRefreshOrder::LeftToRight
    }
}

impl HorizontalRefreshOrder {
    /// The opposite of a horizontal refresh order.
    pub open spec fn spec_flip(self) -> Self {
        match self {
            HorizontalRefreshOrder::LeftToRight => HorizontalRefreshOrder::RightToLeft,
            HorizontalRefreshOrder::RightToLeft => HorizontalRefreshOrder::LeftToRight,
        }
    }

    /// Returns the opposite refresh order.
    #[must_use]
    pub fn flip(self) -> (r: Self)
        ensures
            r == self.spec_flip(),
            r != self,
    {
        match self {
            Self::LeftToRight => Self::RightToLeft,
            Self::RightToLeft => Self::LeftToRight,
        }
    }
}

/// Display refresh order.
///
/// Defaults to left to right, top to bottom.
#[derive(Copy, Clone, Debug, PartialEq, Eq, Structural)]
pub struct RefreshOrder {
    /// Vertical refresh order.
    pub vertical: VerticalRefreshOrder,
    /// Horizontal refresh order.
    pub horizontal: HorizontalRefreshOrder,
}

impl Default for RefreshOrder {
    fn default() -> (r: Self)
        ensures
            r.vertical == VerticalRefreshOrder::TopToBottom,
            r.horizontal == HorizontalRefreshOrder::LeftToRight,
    {
        RefreshOrder {
            vertical: VerticalRefreshOrder::TopToBottom,
            horizontal: HorizontalRefreshOrder::LeftToRight,
        }
    }
}

impl RefreshOrder {
    /// Creates a new refresh order.
    pub fn new(vertical: VerticalRefreshOrder, horizontal: HorizontalRefreshOrder) -> (r: Self)
        ensures
            r.vertical == vertical,
            r.horizontal == horizontal,
    {
        Self { vertical, horizontal }
    }

    /// Returns a refresh order with flipped vertical refresh order.
    #[must_use]
    pub fn flip_vertical(self) -> (r: Self)
        ensures
            r.vertical == self.vertical.spec_flip(),
            r.horizontal == self.horizontal,
    {
        Self { vertical: self.vertical.flip(), ..self }
    }

    /// Returns a refresh order with flipped horizontal refresh order.
    #[must_use]
    pub fn flip_horizontal(self) -> (r: Self)
        ensures
            r.vertical == self.vertical,
            r.horizontal == self.horizontal.spec_flip(),
    {
        Self { horizontal: self.horizontal.flip(), ..self }
    }
}

/// Tearing effect output setting.
#[derive(Copy, Clone, Debug, PartialEq, Eq, Structural)]
pub enum TearingEffect {
    /// Disable output.
    Off,
    /// Output vertical blanking information.
    Vertical,
    /// Output horizontal and vertical blanking information.
    HorizontalAndVertical,
}

/// Subpixel order.
#[derive(Debug, Clone, Copy, PartialEq, Eq, Structural)]
pub enum ColorOrder {
    /// RGB subpixel order.
    Rgb,
    /// BGR subpixel order.
    Bgr,
}

impl Default for ColorOrder {
    fn default() -> (r: Self)
        ensures
            r == ColorOrder::Rgb,
    {
        ColorOrder::Rgb
    }
}

/// Options of a display model: subpixel order, orientation, color inversion,
/// refresh order, and the size and offset of the visible display area within
/// the framebuffer.
#[derive(Clone, Copy, Debug)]
pub struct ModelOptions {
    /// Subpixel order.
    pub color_order: ColorOrder,
    /// Initial display orientation.
    pub orientation: Orientation,
    /// Whether to invert colors.
    pub invert_colors: ColorInversion,
    /// Display refresh order.
    pub refresh_order: RefreshOrder,
    /// Size of the visible display area in the default orientation.
    pub display_size: (u16, u16),
    /// Offset of the visible display area within the framebuffer.
    pub display_offset: (u16, u16),
}

/// Whether an orientation exchanges rows and columns.
pub open spec fn is_landscape(orientation: Orientation) -> bool {
    orientation is Landscape || orientation is LandscapeInverted
}

impl ModelOptions {
    /// Options with default settings whose display area is the whole framebuffer.
    pub fn full_size(framebuffer_size: (u16, u16)) -> (r: Self)
        ensures
            r.color_order == ColorOrder::Rgb,
            r.orientation == Orientation::Portrait(false),
            r.invert_colors == ColorInversion::Normal,
            r.refresh_order == (RefreshOrder {
                vertical: VerticalRefreshOrder::TopToBottom,
                horizontal: HorizontalRefreshOrder::LeftToRight,
            }),
            r.display_size == framebuffer_size,
            r.display_offset == (0u16, 0u16),
    {
        ModelOptions {
            color_order: ColorOrder::default(),
            orientation: Orientation::default(),
            invert_colors: ColorInversion::default(),
            refresh_order: RefreshOrder::default(),
            display_size: framebuffer_size,
            display_offset: (0, 0),
        }
    }

    /// Options with default settings, the given display area size and offset.
    pub fn with_all(display_size: (u16, u16), display_offset: (u16, u16)) -> (r: Self)
        ensures
            r.color_order == ColorOrder::Rgb,
            r.orientation == Orientation::Portrait(false),
            r.invert_colors == ColorInversion::Normal,
            r.refresh_order == (RefreshOrder {
                vertical: VerticalRefreshOrder::TopToBottom,
                horizontal: HorizontalRefreshOrder::LeftToRight,
            }),
            r.display_size == display_size,
            r.display_offset == display_offset,
    {
        let mut options = Self::full_size(display_size);
        options.display_offset = display_offset;
        options
    }

    /// Sets the color inversion.
    pub fn set_invert_colors(&mut self, invert_colors: ColorInversion)
        ensures
            *final(self) == (ModelOptions { invert_colors, ..*old(self) }),
    {
        self.invert_colors = invert_colors;
    }

    /// The size of the display area as seen in the current orientation.
    pub open spec fn spec_display_size(&self) -> (u16, u16) {
        if is_landscape(self.orientation) {
            (self.display_size.1, self.display_size.0)
        } else {
            self.display_size
        }
    }

    /// Returns the display size based on the current orientation.
    pub fn display_size(&self) -> (r: (u16, u16))
        ensures
            r == self.spec_display_size(),
    {
        match self.orientation {
            Orientation::Landscape(_) | Orientation::LandscapeInverted(_) => (
                self.display_size.1,
                self.display_size.0,
            ),
            _ => self.display_size,
        }
    }
}

/// Flipping a vertical refresh order twice gives it back.
pub proof fn vertical_flip_involutive(o: VerticalRefreshOrder)
    ensures
        o.spec_flip().spec_flip() == o,
{
}

/// Flipping a horizontal refresh order twice gives it back.
pub proof fn horizontal_flip_involutive(o: HorizontalRefreshOrder)
    ensures
        o.spec_flip().spec_flip() == o,
{
}

} // verus!
