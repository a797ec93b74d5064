//! Points, rectangles and angles over fixed-point numbers.

use crate::fixed::{lemma_trunc_div_neg, narrow, saturate, trunc_div, UNIT};
use vstd::prelude::*;

verus! {

/// A position in the world. `x` grows to the right and `y` grows downward.
#[derive(Clone, Copy, Debug, PartialEq, Eq, Structural)]
pub struct Point {
    pub x: i64,
    pub y: i64,
}

/// A rectangle: a point `(x, y)`, a width and a height. For a hitbox the
/// point is the center of the rectangle, for a button its top left corner.
#[derive(Clone, Copy, Debug, PartialEq, Eq, Structural)]
pub struct Rect {
    pub x: i64,
    pub y: i64,
    pub w: i64,
    pub h: i64,
}

/// An angle in radians together with its cosine and sine.
///
/// The library does no trigonometry: whoever makes an `Angle` supplies all
/// three numbers. Angle zero points up, and a growing angle turns clockwise.
#[derive(Clone, Copy, Debug, PartialEq, Eq, Structural)]
pub struct Angle {
    pub radians: i64,
    pub cos: i64,
    pub sin: i64,
}

/// One of the four angles that are an odd multiple of a quarter of pi.
///
/// Cosine and sine of such an angle are both plus or minus the square root of
/// one half, so a rotation by it is exact in integers once every coordinate is
/// scaled by the square root of two.
#[derive(Clone, Copy, Debug, PartialEq, Eq, Structural)]
pub enum Diagonal {
    NegThreeQuarterPi,
    NegQuarterPi,
    QuarterPi,
    ThreeQuarterPi,
}

/// A point seen from a frame that is turned by a [`Diagonal`]: the rotated
/// coordinates, each multiplied by the square root of two.
#[derive(Clone, Copy, Debug, PartialEq, Eq, Structural)]
pub struct FramePoint {
    pub x: i128,
    pub y: i128,
}

impl Point {
    pub fn new(x: i64, y: i64) -> (p: Point)
        ensures
            p == (Point { x, y }),
    {
        Point { x, y }
    }

    /// The first coordinate of this point in a frame turned by `rotation`,
    /// times the square root of two: `sqrt(2) * (x cos + y sin)`.
    pub open spec fn frame_x(self, rotation: Diagonal) -> int {
        rotation.cos_times(self.x as int) + rotation.sin_times(self.y as int)
    }

    /// The second coordinate of this point in a frame turned by `rotation`,
    /// times the square root of two: `sqrt(2) * (-x sin + y cos)`.
    pub open spec fn frame_y(self, rotation: Diagonal) -> int {
        rotation.cos_times(self.y as int) - rotation.sin_times(self.x as int)
    }

    /// Expresses this point in a frame turned by `rotation`.
    pub fn in_frame(&self, rotation: Diagonal) -> (q: FramePoint)
        ensures
            q.x == self.frame_x(rotation),
            q.y == self.frame_y(rotation),
    {
        let x: i128 = self.x as i128;
        let y: i128 = self.y as i128;
        match rotation {
            Diagonal::NegThreeQuarterPi => FramePoint { x: -x - y, y: x - y },
            Diagonal::NegQuarterPi => FramePoint { x: x - y, y: x + y },
            Diagonal::QuarterPi => FramePoint { x: x + y, y: y - x },
            Diagonal::ThreeQuarterPi => FramePoint { x: y - x, y: -x - y },
        }
    }
}

impl Rect {
    pub fn new(x: i64, y: i64, w: i64, h: i64) -> (r: Rect)
        ensures
            r == (Rect { x, y, w, h }),
    {
        Rect { x, y, w, h }
    }

    /// The corner that lies `side_x` half widths and `side_y` half heights from
    /// the center, after the rectangle is turned about its center by `by`.
    pub open spec fn corner(self, by: Angle, side_x: int, side_y: int) -> Point {
        let off_x = side_x * trunc_div(self.w as int, 2);
        let off_y = side_y * trunc_div(self.h as int, 2);
        Point {
            x: saturate(self.x + by.turned_x(off_x, off_y)) as i64,
            y: saturate(self.y + by.turned_y(off_x, off_y)) as i64,
        }
    }

    /// The four corners of the turned rectangle: top left, top right, bottom
    /// right, bottom left.
    pub open spec fn corners(self, by: Angle) -> Seq<Point> {
        seq![
            self.corner(by, -1, -1),
            self.corner(by, 1, -1),
            self.corner(by, 1, 1),
            self.corner(by, -1, 1),
        ]
    }

    /// The four corners of the rectangle as it stands, unturned.
    pub open spec fn upright_corners(self) -> Seq<Point> {
        let half_w = trunc_div(self.w as int, 2);
        let half_h = trunc_div(self.h as int, 2);
        seq![
            Point { x: saturate(self.x - half_w) as i64, y: saturate(self.y - half_h) as i64 },
            Point { x: saturate(self.x + half_w) as i64, y: saturate(self.y - half_h) as i64 },
            Point { x: saturate(self.x + half_w) as i64, y: saturate(self.y + half_h) as i64 },
            Point { x: saturate(self.x - half_w) as i64, y: saturate(self.y + half_h) as i64 },
        ]
    }
}

impl Angle {
    pub fn new(radians: i64, cos: i64, sin: i64) -> (a: Angle)
        ensures
            a == (Angle { radians, cos, sin }),
    {
        Angle { radians, cos, sin }
    }

    /// The first coordinate of the offset `(x, y)` after it is turned by this
    /// angle: `x cos - y sin`.
    pub open spec fn turned_x(self, x: int, y: int) -> int {
        trunc_div(x * self.cos - y * self.sin, UNIT as int)
    }

    /// The second coordinate of the offset `(x, y)` after it is turned by this
    /// angle: `x sin + y cos`.
    pub open spec fn turned_y(self, x: int, y: int) -> int {
        trunc_div(x * self.sin + y * self.cos, UNIT as int)
    }

    /// Whether cosine and sine are no larger than one.
    pub open spec fn bounded(self) -> bool {
        -UNIT <= self.cos <= UNIT && -UNIT <= self.sin <= UNIT
    }

    /// Whether cosine and sine are no larger than one.
    pub fn is_bounded(&self) -> (b: bool)
        ensures
            b == self.bounded(),
    {
        -UNIT <= self.cos && self.cos <= UNIT && -UNIT <= self.sin && self.sin <= UNIT
    }

    /// The angle zero, whose cosine is one and whose sine is zero.
    pub open spec fn spec_zero() -> Angle {
        Angle { radians: 0, cos: UNIT, sin: 0 }
    }

    #[verifier::when_used_as_spec(spec_zero)]
    pub fn zero() -> (a: Angle)
        ensures
            a == Self::spec_zero(),
    {
        Angle { radians: 0, cos: UNIT, sin: 0 }
    }
}

impl Diagonal {
    /// The angle as a multiple of a quarter of pi: -3, -1, 1 or 3.
    pub open spec fn spec_quarters(self) -> int {
        match self {
            Diagonal::NegThreeQuarterPi => -3,
            Diagonal::NegQuarterPi => -1,
            Diagonal::QuarterPi => 1,
            Diagonal::ThreeQuarterPi => 3,
        }
    }

    /// `v` times the cosine of the angle times the square root of two: `v`
    /// where the cosine is positive, `-v` where it is negative.
    pub open spec fn cos_times(self, v: int) -> int {
        match self {
            Diagonal::NegThreeQuarterPi => -v,
            Diagonal::NegQuarterPi => v,
            Diagonal::QuarterPi => v,
            Diagonal::ThreeQuarterPi => -v,
        }
    }

    /// `v` times the sine of the angle times the square root of two: `v`
    /// where the sine is positive, `-v` where it is negative.
    pub open spec fn sin_times(self, v: int) -> int {
        match self {
            Diagonal::NegThreeQuarterPi => -v,
            Diagonal::NegQuarterPi => -v,
            Diagonal::QuarterPi => v,
            Diagonal::ThreeQuarterPi => v,
        }
    }

    /// The angle as a multiple of a quarter of pi: -3, -1, 1 or 3.
    pub fn quarters(self) -> (k: i64)
        ensures
            k == self.spec_quarters(),
    {
        match self {
            Diagonal::NegThreeQuarterPi => -3,
            Diagonal::NegQuarterPi => -1,
            Diagonal::QuarterPi => 1,
            Diagonal::ThreeQuarterPi => 3,
        }
    }
}

/// The product of a half extent and a cosine or sine leaves room for a sum of two.
proof fn lemma_offset_product(off: int, trig: int)
    by (nonlinear_arith)
    requires
        -0x4000_0000_0000_0000 <= off <= 0x4000_0000_0000_0000,
        -0x8000_0000_0000_0000 <= trig <= 0x8000_0000_0000_0000,
    ensures
        -0x2000_0000_0000_0000_0000_0000_0000_0000 <= off * trig
            <= 0x2000_0000_0000_0000_0000_0000_0000_0000,
{
}

/// Turns the offset `(off_x, off_y)` by `by` and adds it to `center`.
fn turned_corner(center: Point, off_x: i64, off_y: i64, by: Angle) -> (p: Point)
    requires
        -0x4000_0000_0000_0000 <= off_x <= 0x4000_0000_0000_0000,
        -0x4000_0000_0000_0000 <= off_y <= 0x4000_0000_0000_0000,
    ensures
        p.x == saturate(center.x + by.turned_x(off_x as int, off_y as int)),
        p.y == saturate(center.y + by.turned_y(off_x as int, off_y as int)),
{
    proof {
        lemma_offset_product(off_x as int, by.cos as int);
        lemma_offset_product(off_y as int, by.sin as int);
        lemma_offset_product(off_x as int, by.sin as int);
        lemma_offset_product(off_y as int, by.cos as int);
    }
    let xc: i128 = (off_x as i128) * (by.cos as i128);
    let ys: i128 = (off_y as i128) * (by.sin as i128);
    let xs: i128 = (off_x as i128) * (by.sin as i128);
    let yc: i128 = (off_y as i128) * (by.cos as i128);
    let dx: i128 = (xc - ys) / (UNIT as i128);
    let dy: i128 = (xs + yc) / (UNIT as i128);
    Point { x: narrow(center.x as i128 + dx), y: narrow(center.y as i128 + dy) }
}

/// The four corners of `rect` turned about its center by `by`: top left, top
/// right, bottom right, bottom left.
pub fn rect_corners(rect: Rect, by: Angle) -> (r: [Point; 4])
    ensures
        r@ == rect.corners(by),
{
    let center = Point { x: rect.x, y: rect.y };
    let half_w: i64 = rect.w / 2;
    let half_h: i64 = rect.h / 2;
    [
        turned_corner(center, -half_w, -half_h, by),
        turned_corner(center, half_w, -half_h, by),
        turned_corner(center, half_w, half_h, by),
        turned_corner(center, -half_w, half_h, by),
    ]
}

/// A rectangle that is turned by an angle whose cosine is one and whose sine
/// is zero has the corners that it had before.
pub proof fn lemma_full_turn_keeps_corners(rect: Rect, by: Angle)
    requires
        by.cos == UNIT,
        by.sin == 0,
    ensures
        rect.corners(by) == rect.upright_corners(),
{
}

/// Turned by the angle zero, a rectangle has exactly the corners of the
/// upright rectangle.
pub proof fn lemma_unturned_corners(rect: Rect)
    ensures
        rect.corners(Angle::zero()) == rect.upright_corners(),
{
    lemma_full_turn_keeps_corners(rect, Angle::zero());
}

/// Opposite offsets stay opposite when they are turned: the corners of a
/// turned rectangle lie in pairs across its center.
pub proof fn lemma_opposite_offsets_mirror(by: Angle, x: int, y: int)
    ensures
        by.turned_x(-x, -y) == -by.turned_x(x, y),
        by.turned_y(-x, -y) == -by.turned_y(x, y),
{
    assert((-x) * by.cos - (-y) * by.sin == -(x * by.cos - y * by.sin)) by (nonlinear_arith);
    assert((-x) * by.sin + (-y) * by.cos == -(x * by.sin + y * by.cos)) by (nonlinear_arith);
    lemma_trunc_div_neg(x * by.cos - y * by.sin, UNIT as int);
    lemma_trunc_div_neg(x * by.sin + y * by.cos, UNIT as int);
}

} // verus!
