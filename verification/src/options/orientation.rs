//! Display rotation, orientation and memory mapping.

use vstd::prelude::*;

verus! {

/// Display rotation.
#[derive(Debug, Copy, Clone, PartialEq, Eq, PartialOrd, Ord, Hash, Structural)]
pub enum Rotation {
    /// No rotation.
    Deg0,
    /// 90° clockwise rotation.
    Deg90,
    /// 180° clockwise rotation.
    Deg180,
    /// 270° clockwise rotation.
    Deg270,
}

/// The angle of a rotation in degrees.
pub open spec fn rotation_degree(r: Rotation) -> int {
    match r {
        Rotation::Deg0 => 0,
        Rotation::Deg90 => 90,
        Rotation::Deg180 => 180,
        Rotation::Deg270 => 270,
    }
}

/// The rotation whose angle is `angle` taken modulo a full turn, if that
/// angle is a multiple of 90°.
pub open spec fn rotation_from_angle(angle: int) -> Option<Rotation> {
    let a = angle % 360;
    if a == 0 {
        Some(Rotation::Deg0)
    } else if a == 90 {
        Some(Rotation::Deg90)
    } else if a == 180 {
        Some(Rotation::Deg180)
    } else if a == 270 {
        Some(Rotation::Deg270)
    } else {
        None
    }
}

/// The rotation by `a` followed by the rotation by `b`.
pub open spec fn rotation_sum(a: Rotation, b: Rotation) -> Rotation {
    rotation_from_angle(rotation_degree(a) + rotation_degree(b)).unwrap()
}

/// The rotation that undoes `r`.
pub open spec fn rotation_inverse(r: Rotation) -> Rotation {
    rotation_from_angle(360 - rotation_degree(r)).unwrap()
}

/// Whether a rotation is by 90° or 270°.
pub open spec fn rotation_is_vertical(r: Rotation) -> bool {
    r == Rotation::Deg90 || r == Rotation::Deg270
}

impl Rotation {
    /// Returns the rotation in degrees.
    pub fn degree(self) -> (d: i32)
        ensures
            d == rotation_degree(self),
    {
        match self {
            Self::Deg0 => 0,
            Self::Deg90 => 90,
            Self::Deg180 => 180,
            Self::Deg270 => 270,
        }
    }

    /// Converts an angle into a rotation.
    ///
    /// Returns an error if the angle isn't an integer multiple of 90°.
    pub fn try_from_degree(angle: i32) -> (r: Result<Self, InvalidAngleError>)
        ensures
            match rotation_from_angle(angle as int) {
                Some(rot) => r == Ok::<Rotation, InvalidAngleError>(rot),
                None => r == Err::<Rotation, InvalidAngleError>(InvalidAngleError),
            },
    {
        let wide: i64 = angle as i64;
        let normalized: i64 = if wide >= 0 {
            wide % 360
        } else {
            let m: i64 = (-wide) % 360;
            if m == 0 {
                0
            } else {
                360 - m
            }
        };
        assert(normalized == (angle as int) % 360) by {
            if wide < 0 {
                let m = (-wide) % 360;
                assert((-(angle as int)) == 360 * ((-(angle as int)) / 360) + m);
                if m != 0 {
                    assert((angle as int) == 360 * (-((-(angle as int)) / 360) - 1) + (360 - m));
                } else {
                    assert((angle as int) == 360 * (-((-(angle as int)) / 360)));
                }
            }
        }
        if normalized == 0 {
            Ok(Self::Deg0)
        } else if normalized == 90 {
            Ok(Self::Deg90)
        } else if normalized == 180 {
            Ok(Self::Deg180)
        } else if normalized == 270 {
            Ok(Self::Deg270)
        } else {
            Err(InvalidAngleError)
        }
    }

    /// Rotates one rotation by another rotation.
    #[must_use]
    pub fn rotate(self, other: Rotation) -> (r: Self)
        ensures
            r == rotation_sum(self, other),
            rotation_degree(r) == (rotation_degree(self) + rotation_degree(other)) % 360,
    {
        match Self::try_from_degree(self.degree() + other.degree()) {
            Ok(r) => r,
            Err(_) => {
                assert(false);
                Rotation::Deg0
            },
        }
    }

    /// Returns `true` if the rotation is horizontal (0° or 180°).
    pub fn is_horizontal(self) -> (b: bool)
        ensures
            b == !rotation_is_vertical(self),
    {
        matches!(self, Self::Deg0 | Self::Deg180)
    }

    /// Returns `true` if the rotation is vertical (90° or 270°).
    pub fn is_vertical(self) -> (b: bool)
        ensures
            b == rotation_is_vertical(self),
    {
        matches!(self, Self::Deg90 | Self::Deg270)
    }
}

/// Invalid angle error.
///
/// The error type returned by [`Rotation::try_from_degree`].
#[derive(Debug, Clone, Copy, PartialEq, Eq, PartialOrd, Ord, Hash, Structural)]
pub struct InvalidAngleError;

/// Display orientation.
///
/// A display orientation describes how the display content is oriented relative
/// to the default orientation of the display.
#[derive(Debug, Clone, Copy, PartialEq, Eq, PartialOrd, Ord, Hash, Structural)]
pub struct Orientation {
    /// Rotation.
    pub rotation: Rotation,
    /// Mirrored.
    pub mirrored: bool,
}

/// An orientation rotated by `r`.
pub open spec fn orientation_rotated(o: Orientation, r: Rotation) -> Orientation {
    Orientation { rotation: rotation_sum(o.rotation, r), mirrored: o.mirrored }
}

/// An orientation flipped across the horizontal axis of the display content.
pub open spec fn orientation_flipped_horizontally(o: Orientation) -> Orientation {
    if rotation_is_vertical(o.rotation) {
        Orientation { rotation: rotation_sum(o.rotation, Rotation::Deg180), mirrored: !o.mirrored }
    } else {
        Orientation { rotation: o.rotation, mirrored: !o.mirrored }
    }
}

/// An orientation flipped across the vertical axis of the display content.
pub open spec fn orientation_flipped_vertically(o: Orientation) -> Orientation {
    if rotation_is_vertical(o.rotation) {
        Orientation { rotation: o.rotation, mirrored: !o.mirrored }
    } else {
        Orientation { rotation: rotation_sum(o.rotation, Rotation::Deg180), mirrored: !o.mirrored }
    }
}

impl Orientation {
    /// Creates a default orientation.
    pub fn new() -> (o: Self)
        ensures
            o == (Orientation { rotation: Rotation::Deg0, mirrored: false }),
    {
        Self { rotation: Rotation::Deg0, mirrored: false }
    }

    /// Rotates the orientation.
    #[must_use]
    pub fn rotate(self, rotation: Rotation) -> (o: Self)
        ensures
            o == orientation_rotated(self, rotation),
    {
        Self { rotation: self.rotation.rotate(rotation), mirrored: self.mirrored }
    }

    /// Flips the orientation across the horizontal display axis.
    #[must_use]
    fn flip_horizontal_absolute(self) -> (o: Self)
        ensures
            o == (Orientation { rotation: self.rotation, mirrored: !self.mirrored }),
    {
        Self { rotation: self.rotation, mirrored: !self.mirrored }
    }

    /// Flips the orientation across the vertical display axis.
    #[must_use]
    fn flip_vertical_absolute(self) -> (o: Self)
        ensures
            o == (Orientation {
                rotation: rotation_sum(self.rotation, Rotation::Deg180),
                mirrored: !self.mirrored,
            }),
    {
        Self { rotation: self.rotation.rotate(Rotation::Deg180), mirrored: !self.mirrored }
    }

    /// Flips the orientation across the horizontal axis.
    #[must_use]
    pub fn flip_horizontal(self) -> (o: Self)
        ensures
            o == orientation_flipped_horizontally(self),
    {
        if self.rotation.is_vertical() {
            self.flip_vertical_absolute()
        } else {
            self.flip_horizontal_absolute()
        }
    }

    /// Flips the orientation across the vertical axis.
    #[must_use]
    pub fn flip_vertical(self) -> (o: Self)
        ensures
            o == orientation_flipped_vertically(self),
    {
        if self.rotation.is_vertical() {
            self.flip_horizontal_absolute()
        } else {
            self.flip_vertical_absolute()
        }
    }
}

impl Default for Orientation {
    fn default() -> (o: Self)
        ensures
            o == (Orientation { rotation: Rotation::Deg0, mirrored: false }),
    {
        Self::new()
    }
}

/// Memory mapping.
///
/// A memory mapping describes how a framebuffer is mapped to the physical
/// row and columns of a display.
#[derive(Debug, Clone, Copy, PartialEq, Eq, PartialOrd, Ord, Hash, Structural)]
pub struct MemoryMapping {
    /// Rows and columns are swapped.
    pub swap_rows_and_columns: bool,
    /// Rows are reversed.
    pub reverse_rows: bool,
    /// Columns are reversed.
    pub reverse_columns: bool,
}

/// The memory mapping that shows content in the given orientation.
pub open spec fn memory_mapping_of(o: Orientation) -> MemoryMapping {
    let (reverse_rows, reverse_columns) = match o.rotation {
        Rotation::Deg0 => (false, false),
        Rotation::Deg90 => (false, true),
        Rotation::Deg180 => (true, true),
        Rotation::Deg270 => (true, false),
    };
    MemoryMapping {
        swap_rows_and_columns: rotation_is_vertical(o.rotation),
        reverse_rows,
        reverse_columns: reverse_columns != o.mirrored,
    }
}

impl MemoryMapping {
    /// The memory mapping of an orientation (the conversion `From<Orientation>`).
    pub fn from_orientation(orientation: Orientation) -> (m: Self)
        ensures
            m == memory_mapping_of(orientation),
    {
        let (reverse_rows, reverse_columns) = match orientation.rotation {
            Rotation::Deg0 => (false, false),
            Rotation::Deg90 => (false, true),
            Rotation::Deg180 => (true, true),
            Rotation::Deg270 => (true, false),
        };
        Self {
            reverse_rows,
            reverse_columns: reverse_columns != orientation.mirrored,
            swap_rows_and_columns: orientation.rotation.is_vertical(),
        }
    }
}

impl From<Orientation> for MemoryMapping {
    fn from(orientation: Orientation) -> (m: Self) {
        Self::from_orientation(orientation)
    }
}

impl vstd::std_specs::convert::FromSpecImpl<Orientation> for MemoryMapping {
    open spec fn obeys_from_spec() -> bool {
        true
    }

    open spec fn from_spec(v: Orientation) -> Self {
        memory_mapping_of(v)
    }
}

/// Converting a rotation to degrees and back gives the same rotation.
pub proof fn degree_round_trip(r: Rotation)
    ensures
        rotation_from_angle(rotation_degree(r)) == Some(r),
{
}

/// An angle is accepted exactly when it is a multiple of 90°, and the
/// rotation it gives has the angle's remainder modulo a full turn.
pub proof fn accepted_angles(angle: int)
    ensures
        rotation_from_angle(angle) is Some <==> angle % 90 == 0,
        rotation_from_angle(angle) matches Some(r) ==> rotation_degree(r) == angle % 360,
{
    let a = angle % 360;
    assert(angle == 360 * (angle / 360) + a);
    assert(angle % 90 == a % 90) by {
        assert(angle == 90 * (4 * (angle / 360)) + a);
        vstd::arithmetic::div_mod::lemma_mod_multiples_vanish(4 * (angle / 360), a, 90);
    }
}

/// Rotating by 0° changes nothing, and the order of two rotations does not matter.
pub proof fn rotation_identity_and_commutative(a: Rotation, b: Rotation)
    ensures
        rotation_sum(a, Rotation::Deg0) == a,
        rotation_sum(a, b) == rotation_sum(b, a),
{
}

/// Rotations compose associatively.
pub proof fn rotation_associative(a: Rotation, b: Rotation, c: Rotation)
    ensures
        rotation_sum(rotation_sum(a, b), c) == rotation_sum(a, rotation_sum(b, c)),
{
}

/// A rotation followed by its inverse is no rotation.
pub proof fn rotation_inverse_cancels(r: Rotation)
    ensures
        rotation_sum(r, rotation_inverse(r)) == Rotation::Deg0,
{
}

/// Every rotation is either horizontal or vertical, never both.
pub proof fn horizontal_xor_vertical(r: Rotation)
    ensures
        rotation_is_vertical(r) <==> !(r == Rotation::Deg0 || r == Rotation::Deg180),
{
}

/// Rotating an orientation twice is rotating it once by the sum of the rotations.
pub proof fn orientation_rotations_compose(o: Orientation, a: Rotation, b: Rotation)
    ensures
        orientation_rotated(orientation_rotated(o, a), b) == orientation_rotated(o, rotation_sum(a, b)),
{
    rotation_associative(o.rotation, a, b);
}

/// Flipping an orientation twice across the same axis gives it back.
pub proof fn flips_are_involutions(o: Orientation)
    ensures
        orientation_flipped_horizontally(orientation_flipped_horizontally(o)) == o,
        orientation_flipped_vertically(orientation_flipped_vertically(o)) == o,
{
}

/// A vertical flip is a horizontal flip followed by a half turn.
pub proof fn vertical_flip_is_horizontal_flip_and_half_turn(o: Orientation)
    ensures
        orientation_flipped_vertically(o) == orientation_rotated(
            orientation_flipped_horizontally(o),
            Rotation::Deg180,
        ),
{
}

/// Rotating and then flipping is flipping and then rotating the other way.
pub proof fn flip_after_rotation(o: Orientation, r: Rotation)
    ensures
        orientation_flipped_vertically(orientation_rotated(o, r)) == orientation_rotated(
            orientation_flipped_vertically(o),
            rotation_inverse(r),
        ),
        orientation_flipped_horizontally(orientation_rotated(o, r)) == orientation_rotated(
            orientation_flipped_horizontally(o),
            rotation_inverse(r),
        ),
{
}

/// Different orientations have different memory mappings, and the mapping swaps
/// rows and columns exactly for vertical rotations.
pub proof fn memory_mapping_injective(o1: Orientation, o2: Orientation)
    ensures
        memory_mapping_of(o1) == memory_mapping_of(o2) ==> o1 == o2,
        memory_mapping_of(o1).swap_rows_and_columns == rotation_is_vertical(o1.rotation),
{
}

} // verus!
