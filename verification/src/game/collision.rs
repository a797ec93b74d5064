//! Track borders, the footprint of a vehicle, and the test of a point against
//! a border.

use crate::fixed::{narrow, saturate};
use crate::game::level::{cell_corner, corner_of_cell, Rotation, Tile, TileType, TILE_SIZE};
use crate::math::{rect_corners, Angle, Diagonal, FramePoint, Point, Rect};
use vstd::prelude::*;

verus! {

/// Something that can be tested against an obstacle of type `T`.
pub trait Collider<T> {
    /// Whether `self` has run into `other`.
    spec fn hits(&self, other: T) -> bool;

    fn collides(&self, other: T) -> (hit: bool)
        ensures
            hit == self.hits(other),
    ;
}

/// One straight piece of the wall of the track, as it runs across a cell from
/// corner to corner.
///
/// The piece starts at `start` and runs for `reach` along each axis (so its
/// length is `reach` times the square root of two), in the direction that
/// `rotation` turns the upward direction to. Seen from `start` along the
/// piece, the track is on the left and the ground beyond the wall on the
/// right.
#[derive(Clone, Copy, Debug, PartialEq, Eq, Structural)]
pub struct LineBorder {
    pub start: Point,
    pub reach: i64,
    pub rotation: Diagonal,
}

/// The orientations of a border, in the order in which a tile takes them as
/// it is turned by quarter turns: for each the corner of the cell where the
/// border starts (0 or 1 cells right of and below the top left corner) and
/// its angle.
pub open spec fn border_slot(slot: int) -> (int, int, Diagonal) {
    if slot == 0 {
        (1, 0, Diagonal::NegThreeQuarterPi)
    } else if slot == 1 {
        (1, 1, Diagonal::NegQuarterPi)
    } else if slot == 2 {
        (0, 1, Diagonal::QuarterPi)
    } else {
        (0, 0, Diagonal::ThreeQuarterPi)
    }
}

impl TileType {
    /// For a kind of tile that carries a border: the number of quarter turns
    /// at which its border has the first orientation. Other kinds carry none.
    pub open spec fn border_phase(self) -> Option<int> {
        match self {
            TileType::DiagBorder => Some(0),
            TileType::SoftTurnExterior => Some(1),
            TileType::SoftTurnExterior2 => Some(2),
            _ => None,
        }
    }
}

impl LineBorder {
    pub fn new(start: Point, reach: i64, rotation: Diagonal) -> (border: Self)
        ensures
            border == (LineBorder { start, reach, rotation }),
    {
        Self { start, reach, rotation }
    }

    /// The border of a tile, if its kind carries one.
    pub open spec fn of_tile(tile: Tile) -> Option<LineBorder> {
        match tile.tile_type.border_phase() {
            Some(phase) => {
                let (dx, dy, rotation) = border_slot((tile.rotation.ordinal() + 4 - phase) % 4);
                Some(
                    LineBorder {
                        start: cell_corner(
                            tile.position[0] as int,
                            tile.position[1] as int,
                            dx,
                            dy,
                        ),
                        reach: TILE_SIZE,
                        rotation,
                    },
                )
            },
            None => None,
        }
    }

    /// Where the border ends.
    pub open spec fn end_point(self) -> Point {
        Point {
            x: saturate(self.start.x + self.rotation.sin_times(self.reach as int)) as i64,
            y: saturate(self.start.y - self.rotation.cos_times(self.reach as int)) as i64,
        }
    }

    /// The start of the border in the border's own frame.
    pub fn rotated_start(&self) -> (q: FramePoint)
        ensures
            q.x == self.start.frame_x(self.rotation),
            q.y == self.start.frame_y(self.rotation),
    {
        self.start.in_frame(self.rotation)
    }

    /// Where the border ends.
    pub fn end(&self) -> (p: Point)
        ensures
            p == self.end_point(),
    {
        let x: i128 = self.start.x as i128;
        let y: i128 = self.start.y as i128;
        let reach: i128 = self.reach as i128;
        match self.rotation {
            Diagonal::NegThreeQuarterPi => Point {
                x: narrow(x - reach),
                y: narrow(y + reach),
            },
            Diagonal::NegQuarterPi => Point {
                x: narrow(x - reach),
                y: narrow(y - reach),
            },
            Diagonal::QuarterPi => Point {
                x: narrow(x + reach),
                y: narrow(y - reach),
            },
            Diagonal::ThreeQuarterPi => Point {
                x: narrow(x + reach),
                y: narrow(y + reach),
            },
        }
    }

    /// Derives the border of a tile. Only diagonal borders and the two soft
    /// outer turns carry one; which corner it starts at and which way it runs
    /// depends on how the tile is turned.
    pub fn can_from(tile: &Tile) -> (border: Option<Self>)
        ensures
            border == Self::of_tile(*tile),
    {
        let cell = tile.position;
        match tile.tile_type {
            TileType::DiagBorder => match tile.rotation {
                Rotation::PiFois2 => Some(
                    LineBorder::new(corner_of_cell(cell, 1, 0), TILE_SIZE, Diagonal::NegThreeQuarterPi),
                ),
                Rotation::PiSur2 => Some(
                    LineBorder::new(corner_of_cell(cell, 1, 1), TILE_SIZE, Diagonal::NegQuarterPi),
                ),
                Rotation::Pi => Some(
                    LineBorder::new(corner_of_cell(cell, 0, 1), TILE_SIZE, Diagonal::QuarterPi),
                ),
                Rotation::PiFois3Sur2 => Some(
                    LineBorder::new(corner_of_cell(cell, 0, 0), TILE_SIZE, Diagonal::ThreeQuarterPi),
                ),
            },
            TileType::SoftTurnExterior => match tile.rotation {
                Rotation::PiSur2 => Some(
                    LineBorder::new(corner_of_cell(cell, 1, 0), TILE_SIZE, Diagonal::NegThreeQuarterPi),
                ),
                Rotation::Pi => Some(
                    LineBorder::new(corner_of_cell(cell, 1, 1), TILE_SIZE, Diagonal::NegQuarterPi),
                ),
                Rotation::PiFois3Sur2 => Some(
                    LineBorder::new(corner_of_cell(cell, 0, 1), TILE_SIZE, Diagonal::QuarterPi),
                ),
                Rotation::PiFois2 => Some(
                    LineBorder::new(corner_of_cell(cell, 0, 0), TILE_SIZE, Diagonal::ThreeQuarterPi),
                ),
            },
            TileType::SoftTurnExterior2 => match tile.rotation {
                Rotation::Pi => Some(
                    LineBorder::new(corner_of_cell(cell, 1, 0), TILE_SIZE, Diagonal::NegThreeQuarterPi),
                ),
                Rotation::PiFois3Sur2 => Some(
                    LineBorder::new(corner_of_cell(cell, 1, 1), TILE_SIZE, Diagonal::NegQuarterPi),
                ),
                Rotation::PiFois2 => Some(
                    LineBorder::new(corner_of_cell(cell, 0, 1), TILE_SIZE, Diagonal::QuarterPi),
                ),
                Rotation::PiSur2 => Some(
                    LineBorder::new(corner_of_cell(cell, 0, 0), TILE_SIZE, Diagonal::ThreeQuarterPi),
                ),
            },
            _ => None,
        }
    }
}

/// A rectangle that is turned about its center.
pub trait RectHitbox {
    /// The rectangle before it is turned; `(x, y)` is its center.
    spec fn rect_spec(&self) -> Rect;

    /// The angle by which the rectangle is turned.
    spec fn rotation_spec(&self) -> Angle;

    fn rect(&self) -> (r: Rect)
        ensures
            r == self.rect_spec(),
    ;

    fn rotation(&self) -> (a: Angle)
        ensures
            a == self.rotation_spec(),
    ;

    /// The four corners of the turned rectangle: top left, top right, bottom
    /// right, bottom left.
    fn points(&self) -> (corners: [Point; 4])
        ensures
            corners@ == self.rect_spec().corners(self.rotation_spec()),
    {
        rect_corners(self.rect(), self.rotation())
    }

    /// The four corners of the turned rectangle, each expressed in a frame
    /// that is turned by `rotation`: first the rectangle is turned by its own
    /// angle, then the result is read in the other frame.
    fn rotated_points(&self, rotation: Diagonal) -> (corners: [FramePoint; 4])
        ensures
            forall|i: int|
                0 <= i < 4 ==> (#[trigger] corners[i]).x == self.rect_spec().corners(
                    self.rotation_spec(),
                )[i].frame_x(rotation) && corners[i].y == self.rect_spec().corners(
                    self.rotation_spec(),
                )[i].frame_y(rotation),
    {
        let points = self.points();
        [
            points[0].in_frame(rotation),
            points[1].in_frame(rotation),
            points[2].in_frame(rotation),
            points[3].in_frame(rotation),
        ]
    }
}

impl Point {
    /// Whether the point lies beyond the border: in the border's own frame,
    /// to the right of its start and strictly between its two ends. A point on
    /// the line of the border, or level with one of its ends, is not beyond.
    pub open spec fn beyond(self, border: LineBorder) -> bool {
        let here_x = self.frame_x(border.rotation);
        let here_y = self.frame_y(border.rotation);
        let start_x = border.start.frame_x(border.rotation);
        let start_y = border.start.frame_y(border.rotation);
        here_x > start_x && here_y < start_y && here_y > start_y - 2 * border.reach
    }

    /// Whether the point is still on the legal side of the border.
    pub fn inside_track(&self, border: LineBorder) -> (inside: bool)
        ensures
            inside == !self.beyond(border),
    {
        !self.collides(border)
    }
}

impl Collider<LineBorder> for Point {
    open spec fn hits(&self, other: LineBorder) -> bool {
        self.beyond(other)
    }

    fn collides(&self, other: LineBorder) -> (hit: bool) {
        let point = self.in_frame(other.rotation);
        let start = other.rotated_start();
        let far_end: i128 = start.y - 2 * (other.reach as i128);
        point.x > start.x && point.y < start.y && point.y > far_end
    }
}

/// Only diagonal borders and the two soft outer turns carry a border; a tile
/// of any other kind has none, however it is turned.
pub proof fn lemma_only_three_kinds_carry_a_border(tile: Tile)
    ensures
        LineBorder::of_tile(tile) is Some <==> (tile.tile_type == TileType::DiagBorder
            || tile.tile_type == TileType::SoftTurnExterior || tile.tile_type
            == TileType::SoftTurnExterior2),
{
}

/// The border of a tile is as long as the diagonal of a cell, and its angle is
/// minus three, minus one, one or three quarters of pi.
pub proof fn lemma_border_is_diagonal(tile: Tile)
    requires
        LineBorder::of_tile(tile) is Some,
    ensures
        LineBorder::of_tile(tile)->0.reach == TILE_SIZE,
        ({
            let k = LineBorder::of_tile(tile)->0.rotation.spec_quarters();
            k == -3 || k == -1 || k == 1 || k == 3
        }),
{
}

/// Two tiles of one kind that are turned differently have borders with
/// different angles.
pub proof fn lemma_turned_tiles_differ(a: Tile, b: Tile)
    requires
        a.tile_type == b.tile_type,
        a.rotation != b.rotation,
        LineBorder::of_tile(a) is Some,
    ensures
        LineBorder::of_tile(b) is Some,
        LineBorder::of_tile(a)->0.rotation != LineBorder::of_tile(b)->0.rotation,
        LineBorder::of_tile(a)->0.rotation.spec_quarters() != LineBorder::of_tile(
            b,
        )->0.rotation.spec_quarters(),
{
}

/// A tile that carries a border takes each of the four angles at one of its
/// four turns.
pub proof fn lemma_every_angle_is_taken(tile: Tile, angle: Diagonal)
    requires
        LineBorder::of_tile(tile) is Some,
    ensures
        exists|rotation: Rotation|
            (#[trigger] LineBorder::of_tile(Tile { rotation, ..tile }))->0.rotation == angle,
{
    let phase = tile.tile_type.border_phase()->0;
    let slot: int = match angle {
        Diagonal::NegThreeQuarterPi => 0,
        Diagonal::NegQuarterPi => 1,
        Diagonal::QuarterPi => 2,
        Diagonal::ThreeQuarterPi => 3,
    };
    let turns = (slot + phase) % 4;
    let rotation = if turns == 0 {
        Rotation::PiFois2
    } else if turns == 1 {
        Rotation::PiSur2
    } else if turns == 2 {
        Rotation::Pi
    } else {
        Rotation::PiFois3Sur2
    };
    assert(LineBorder::of_tile(Tile { rotation, ..tile })->0.rotation == angle);
}

/// The border of a tile on the map runs from one corner of the tile's cell to
/// the opposite corner.
pub proof fn lemma_border_spans_its_cell(tile: Tile)
    requires
        tile.on_map(),
        LineBorder::of_tile(tile) is Some,
    ensures
        exists|dx: int, dy: int|
            {
                &&& 0 <= dx <= 1
                &&& 0 <= dy <= 1
                &&& LineBorder::of_tile(tile)->0.start == #[trigger] cell_corner(
                    tile.position[0] as int,
                    tile.position[1] as int,
                    dx,
                    dy,
                )
                &&& LineBorder::of_tile(tile)->0.end_point() == cell_corner(
                    tile.position[0] as int,
                    tile.position[1] as int,
                    1 - dx,
                    1 - dy,
                )
            },
{
}

/// The start of a border is not beyond it.
pub proof fn lemma_start_is_on_track(border: LineBorder)
    ensures
        !border.start.beyond(border),
{
}

/// The end of a border is not beyond it, if the end lies within the range
/// of the coordinates.
pub proof fn lemma_end_is_on_track(border: LineBorder)
    requires
        i64::MIN <= border.start.x + border.rotation.sin_times(border.reach as int) <= i64::MAX,
        i64::MIN <= border.start.y - border.rotation.cos_times(border.reach as int) <= i64::MAX,
    ensures
        !border.end_point().beyond(border),
{
}

/// The start of the border of a tile is not beyond that border.
pub proof fn lemma_derived_start_is_on_track(tile: Tile)
    requires
        LineBorder::of_tile(tile) is Some,
    ensures
        !LineBorder::of_tile(tile)->0.start.beyond(LineBorder::of_tile(tile)->0),
{
    lemma_start_is_on_track(LineBorder::of_tile(tile)->0);
}

/// Take a place on a border, `along` from its start and strictly between its
/// ends (the middle is such a place). The point that lies `across` from there
/// on the side of the track is not beyond the border, and its mirror image on
/// the other side of the border is.
pub proof fn lemma_sides_of_border(
    border: LineBorder,
    along: int,
    across: int,
    inside: Point,
    outside: Point,
)
    requires
        0 < along < border.reach,
        across > 0,
        inside.x == border.start.x + border.rotation.sin_times(along)
            - border.rotation.cos_times(across),
        inside.y == border.start.y - border.rotation.cos_times(along)
            - border.rotation.sin_times(across),
        outside.x == border.start.x + border.rotation.sin_times(along)
            + border.rotation.cos_times(across),
        outside.y == border.start.y - border.rotation.cos_times(along)
            + border.rotation.sin_times(across),
    ensures
        !inside.beyond(border),
        outside.beyond(border),
{
}

/// Whether a place in a cell, `x` to the right of and `y` below the top left
/// corner of the cell, lies in the triangle that a border with the given
/// orientation cuts off: the upper left half of the cell for the first
/// orientation, then the upper right, the lower right and the lower left half,
/// each without the diagonal itself.
pub open spec fn cut_off(slot: int, x: int, y: int) -> bool {
    if slot == 0 {
        x + y < TILE_SIZE
    } else if slot == 1 {
        y < x
    } else if slot == 2 {
        x + y > TILE_SIZE
    } else {
        x < y
    }
}

/// Within the cell of a tile on the map, the points beyond the border of the
/// tile are exactly the points of the triangle that the border cuts off.
pub proof fn lemma_border_cuts_a_triangle(tile: Tile, p: Point)
    requires
        tile.on_map(),
        tile.tile_type.border_phase() is Some,
        tile.position[0] * TILE_SIZE <= p.x < (tile.position[0] + 1) * TILE_SIZE,
        tile.position[1] * TILE_SIZE <= p.y < (tile.position[1] + 1) * TILE_SIZE,
    ensures
        LineBorder::of_tile(tile) is Some,
        p.beyond(LineBorder::of_tile(tile)->0) <==> cut_off(
            (tile.rotation.ordinal() + 4 - tile.tile_type.border_phase()->0) % 4,
            p.x - tile.position[0] * TILE_SIZE,
            p.y - tile.position[1] * TILE_SIZE,
        ),
{
}

} // verus!
