//! The vehicle: how the controls change its speed and heading, how it moves,
//! and when it has left the track.

use crate::config::CarStat;
use crate::fixed::{add_fixed, clamp, mul_fixed, narrow, plus, saturate, times, UNIT};
use crate::game::collision::{
    cut_off, lemma_border_cuts_a_triangle, Collider, LineBorder, RectHitbox,
};
use crate::game::grid::grid_tiles;
use crate::game::level::{
    cell_of, cell_spawn, grid_of, in_world,
    lemma_valid_level_tiles_are_in_place, lookup, spawn_in_cell, tile_at, Level, LevelConfig,
    Tile, TILE_SIZE,
};
use crate::input::{DriveKeys, PlayerInput};
use crate::math::{Angle, Point, Rect};
use ahash::AHashMap;
use vstd::prelude::*;

verus! {

/// What is left of a speed after one step of drag: 0.98 of it.
pub const DRAG: i64 = 980_000;

/// The animation of a vehicle that stands still.
pub const ANIMATION_STOP: usize = 0;

/// The animation of a vehicle under way.
pub const ANIMATION_RAINBOW: usize = 1;

/// The animation of a vehicle that has crashed.
pub const ANIMATION_DEATH: usize = 2;

/// A vehicle on the track.
#[derive(Clone, Copy, Debug)]
pub struct Player {
    /// The middle of the vehicle.
    pub position: Point,
    /// The heading. Zero points up and a growing angle turns clockwise.
    pub rotation: Angle,
    /// The forward speed, in world units per step.
    pub velocity: i64,
    /// The constants of the vehicle; they stay as they were given.
    pub stat: CarStat,
}

/// What a control that is held at `magnitude` for the time `dt` adds to the
/// quantity that it drives at `rate` per second. A control that is not
/// touched adds nothing.
pub open spec fn impulse(rate: int, magnitude: Option<i64>, dt: int) -> int {
    match magnitude {
        Some(m) => times(times(rate, m as int), dt),
        None => 0,
    }
}

/// What throttle and brake together add to the speed of a vehicle in one
/// step.
pub open spec fn push(stat: CarStat, input: PlayerInput, dt: int) -> int {
    impulse(stat.acceleration as int, input.accelerate, dt) - impulse(
        stat.brake as int,
        input.brake,
        dt,
    )
}

/// The speed of a vehicle after drag has acted on it for one step.
pub open spec fn dragged(speed: int) -> int {
    times(speed, DRAG as int)
}

/// The speed at which a vehicle moves during a step that it enters at
/// `velocity`, when the controls add `gain` to its speed: never backward
/// and never faster than `max`.
pub open spec fn cruise_from(velocity: int, gain: int, max: int) -> int {
    clamp(velocity + gain, 0, max)
}

/// The speed at which a vehicle moves during step `n` (the first step is
/// step 0), when it enters the first step at `start` and the controls add
/// `gain` to its speed at every step.
pub open spec fn cruise_at(start: int, gain: int, max: int, n: nat) -> int
    decreases n,
{
    if n == 0 {
        cruise_from(start, gain, max)
    } else {
        cruise_from(dragged(cruise_at(start, gain, max, (n - 1) as nat)), gain, max)
    }
}

/// Whether a corner of a vehicle at `p` has left the track `grid`: the cell
/// that holds `p` has a tile, the tile carries a border, and `p` lies beyond
/// it. Off the map, in a cell without a tile and on a tile without a border
/// the way is free.
pub open spec fn off_track(grid: Map<usize, Tile>, p: Point) -> bool {
    in_world(p) && match tile_at(grid, p.x / TILE_SIZE, p.y / TILE_SIZE) {
        Some(tile) => match LineBorder::of_tile(tile) {
            Some(border) => p.beyond(border),
            None => false,
        },
        None => false,
    }
}

/// Tests one corner of a vehicle against the track.
pub fn corner_off_track(tiles: &AHashMap<usize, Tile>, p: Point) -> (off: bool)
    ensures
        off == off_track(grid_tiles(*tiles), p),
{
    match cell_of(p) {
        Some(cell) => match lookup(tiles, cell) {
            Some(tile) => match LineBorder::can_from(&tile) {
                Some(border) => p.collides(border),
                None => false,
            },
            None => false,
        },
        None => false,
    }
}

/// Which animation a step switches the vehicle to, if any: the wreck after a
/// crash; otherwise, in rising order of weight, the flame when the throttle
/// of the game pad is touched, the still picture when its brake is touched
/// or the down key is held, and the flame when the up key is held.
pub open spec fn animation(crashed: bool, input: PlayerInput, keys: DriveKeys) -> Option<usize> {
    if crashed {
        Some(ANIMATION_DEATH)
    } else if keys.up {
        Some(ANIMATION_RAINBOW)
    } else if keys.down || input.brake is Some {
        Some(ANIMATION_STOP)
    } else if input.accelerate is Some {
        Some(ANIMATION_RAINBOW)
    } else {
        None
    }
}

/// Picks the animation after a step; `input` holds the controls of the game
/// pad and `keys` the keys that are held.
pub fn animation_after(crashed: bool, input: &PlayerInput, keys: DriveKeys) -> (row: Option<usize>)
    ensures
        row == animation(crashed, *input, keys),
{
    if crashed {
        return Some(ANIMATION_DEATH);
    }
    let mut row: Option<usize> = None;
    if input.accelerate.is_some() {
        row = Some(ANIMATION_RAINBOW);
    }
    if input.brake.is_some() {
        row = Some(ANIMATION_STOP);
    }
    if keys.down {
        row = Some(ANIMATION_STOP);
    }
    if keys.up {
        row = Some(ANIMATION_RAINBOW);
    }
    row
}

/// What a control adds in one step; see [`impulse`].
fn impulse_of(rate: i64, magnitude: Option<i64>, dt: i64) -> (r: i64)
    ensures
        r == impulse(rate as int, magnitude, dt as int),
{
    match magnitude {
        Some(m) => mul_fixed(mul_fixed(rate, m), dt),
        None => 0,
    }
}

impl Player {
    /// The speed at which the vehicle moves during a step with these controls.
    pub open spec fn cruise(&self, input: PlayerInput, dt: int) -> int {
        cruise_from(
            self.velocity as int,
            push(self.stat, input, dt),
            self.stat.max_velocity as int,
        )
    }

    /// The speed at which the vehicle moves during its first step, if it is
    /// driven with these controls.
    pub proof fn lemma_cruise_starts(self, input: PlayerInput, dt: int)
        ensures
            self.cruise(input, dt) == cruise_at(
                self.velocity as int,
                push(self.stat, input, dt),
                self.stat.max_velocity as int,
                0,
            ),
    {
    }

    /// The heading, in radians, after a step with these controls.
    pub open spec fn turned_radians(&self, input: PlayerInput, dt: int) -> int {
        plus(
            self.rotation.radians as int,
            impulse(self.stat.rotation_speed as int, input.turn, dt),
        )
    }

    /// Where the vehicle is after a step with these controls, at the end of
    /// which it heads toward `turned`.
    pub open spec fn moved_to(&self, input: PlayerInput, dt: int, turned: Angle) -> Point {
        Point {
            x: plus(self.position.x as int, times(turned.sin as int, self.cruise(input, dt))) as i64,
            y: saturate(self.position.y - times(turned.cos as int, self.cruise(input, dt))) as i64,
        }
    }

    /// A vehicle at rest at the origin, heading up.
    pub fn new(stat: &CarStat) -> (player: Self)
        ensures
            player.position == (Point { x: 0, y: 0 }),
            player.rotation == Angle::zero(),
            player.velocity == 0,
            player.stat == *stat,
    {
        Self {
            position: Point::new(0, 0),
            rotation: Angle::zero(),
            velocity: 0,
            stat: *stat,
        }
    }

    /// The heading, in radians, that the vehicle will have after a step with
    /// these controls. The caller needs it to make the [`Angle`] that
    /// [`Player::movement`] and [`Player::update`] ask for.
    pub fn heading_after(&self, input: &PlayerInput, dt: i64) -> (radians: i64)
        ensures
            radians == self.turned_radians(*input, dt as int),
    {
        add_fixed(self.rotation.radians, impulse_of(self.stat.rotation_speed, input.turn, dt))
    }

    /// Advances the vehicle by one step of `dt` seconds.
    ///
    /// In this order: throttle adds to the speed and brake takes from it; the
    /// vehicle turns; the speed is held within zero and the highest speed; the
    /// vehicle moves by that speed along its new heading; drag takes its share
    /// of the speed.
    ///
    /// `turned` is the new heading: its angle must be the one that
    /// [`Player::heading_after`] gives for the same controls.
    pub fn movement(&mut self, input: &PlayerInput, dt: i64, turned: Angle)
        requires
            old(self).stat.wf(),
            turned.radians == old(self).turned_radians(*input, dt as int),
        ensures
            final(self).stat == old(self).stat,
            final(self).rotation == turned,
            final(self).position == old(self).moved_to(*input, dt as int, turned),
            final(self).velocity == dragged(old(self).cruise(*input, dt as int)),
            0 <= final(self).velocity <= old(self).cruise(*input, dt as int)
                <= old(self).stat.max_velocity,
    {
        let gain = impulse_of(self.stat.acceleration, input.accelerate, dt);
        let loss = impulse_of(self.stat.brake, input.brake, dt);
        let pushed: i128 = self.velocity as i128 + gain as i128 - loss as i128;
        let speed: i64 = if pushed < 0 {
            0
        } else if pushed > self.stat.max_velocity as i128 {
            self.stat.max_velocity
        } else {
            pushed as i64
        };
        self.position.x = add_fixed(self.position.x, mul_fixed(turned.sin, speed));
        self.position.y = narrow(self.position.y as i128 - mul_fixed(turned.cos, speed) as i128);
        self.rotation = turned;
        self.velocity = mul_fixed(speed, DRAG);
    }

    /// One step of the simulation. If a corner of the vehicle has left the
    /// track, the vehicle has crashed: nothing moves and the controls are
    /// ignored. Otherwise the vehicle moves as [`Player::movement`] says.
    /// Returns whether the vehicle has crashed at this step.
    ///
    /// What [`Player::movement`] asks of the vehicle and of `turned` is asked
    /// only of a vehicle that has not crashed.
    pub fn update(&mut self, level: &Level, input: &PlayerInput, dt: i64, turned: Angle) -> (crashed:
        bool)
        requires
            !old(self).hits(&level.tiles) ==> old(self).stat.wf(),
            !old(self).hits(&level.tiles) ==> turned.radians == old(self).turned_radians(
                *input,
                dt as int,
            ),
        ensures
            crashed == old(self).hits(&level.tiles),
            crashed ==> *final(self) == *old(self),
            !crashed ==> {
                &&& final(self).stat == old(self).stat
                &&& final(self).rotation == turned
                &&& final(self).position == old(self).moved_to(*input, dt as int, turned)
                &&& final(self).velocity == dragged(old(self).cruise(*input, dt as int))
            },
    {
        if self.collides(&level.tiles) {
            true
        } else {
            self.movement(input, dt, turned);
            false
        }
    }

    /// Puts the vehicle at rest in the cell `pos`, heading up. It stands 4.0
    /// to the right of and 4.0 below the top left corner of the cell: in the
    /// cell `[2, 2]` at `(52.0, 52.0)`.
    pub fn init(&mut self, pos: [usize; 2])
        ensures
            final(self).position == cell_spawn(pos[0] as int, pos[1] as int),
            final(self).rotation == Angle::zero(),
            final(self).velocity == 0,
            final(self).stat == old(self).stat,
    {
        self.position = spawn_in_cell(pos);
        self.rotation = Angle::zero();
        self.velocity = 0;
    }
}

impl RectHitbox for Player {
    open spec fn rect_spec(&self) -> Rect {
        Rect {
            x: self.position.x,
            y: self.position.y,
            w: self.stat.hitbox_size.0,
            h: self.stat.hitbox_size.1,
        }
    }

    open spec fn rotation_spec(&self) -> Angle {
        self.rotation
    }

    fn rect(&self) -> (r: Rect) {
        Rect::new(self.position.x, self.position.y, self.stat.hitbox_size.0, self.stat.hitbox_size.1)
    }

    fn rotation(&self) -> (a: Angle) {
        self.rotation
    }
}

impl<'a> Collider<&'a AHashMap<usize, Tile>> for Player {
    /// The vehicle has crashed if any corner of its footprint has left the
    /// track.
    open spec fn hits(&self, other: &'a AHashMap<usize, Tile>) -> bool {
        exists|i: int|
            0 <= i < 4 && off_track(
                grid_tiles(*other),
                #[trigger] self.rect_spec().corners(self.rotation_spec())[i],
            )
    }

    fn collides(&self, other: &'a AHashMap<usize, Tile>) -> (hit: bool) {
        let points = self.points();
        let mut i: usize = 0;
        while i < 4
            invariant
                i <= 4,
                points@ == self.rect_spec().corners(self.rotation_spec()),
                forall|j: int| 0 <= j < i ==> !off_track(grid_tiles(*other), #[trigger] points@[j]),
            decreases 4 - i,
        {
            if corner_off_track(other, points[i]) {
                return true;
            }
            i += 1;
        }
        false
    }
}

/// Drag never speeds a vehicle up and never turns it round.
pub proof fn lemma_drag_slows(speed: int)
    requires
        0 <= speed <= i64::MAX,
    ensures
        0 <= dragged(speed) <= speed,
        speed > 0 ==> dragged(speed) < speed,
{
}

/// What drag takes from a speed in one step.
pub open spec fn drag_loss(speed: int) -> int {
    speed - dragged(speed)
}

/// A vehicle at rest whose throttle and brake are not touched stays at rest
/// and stays where it is, whatever the time step and wherever it heads.
pub proof fn lemma_rest_stays_rest(player: Player, input: PlayerInput, dt: int, turned: Angle)
    requires
        player.stat.wf(),
        player.velocity == 0,
        input.accelerate is None,
        input.brake is None,
    ensures
        player.cruise(input, dt) == 0,
        dragged(player.cruise(input, dt)) == 0,
        player.moved_to(input, dt, turned) == player.position,
        input.turn is None ==> player.turned_radians(input, dt) == player.rotation.radians,
{
    assert(times(turned.sin as int, 0) == 0) by (nonlinear_arith);
    assert(times(turned.cos as int, 0) == 0) by (nonlinear_arith);
}

/// A corner in a cell that has no tile has not left the track.
pub proof fn lemma_open_world(grid: Map<usize, Tile>, p: Point)
    requires
        tile_at(grid, p.x / TILE_SIZE, p.y / TILE_SIZE) is None,
    ensures
        !off_track(grid, p),
{
}

/// On the track of a level that passes the check, a point has left the track
/// exactly if the tile of its cell carries a border and the point lies in the
/// half of the cell that the border cuts off.
pub proof fn lemma_off_track_is_cut_off(conf: LevelConfig, p: Point)
    requires
        conf.valid(),
        in_world(p),
    ensures
        off_track(grid_of(conf.tiles@), p) <==> {
            &&& tile_at(grid_of(conf.tiles@), p.x / TILE_SIZE, p.y / TILE_SIZE) matches Some(tile)
            &&& tile.tile_type.border_phase() matches Some(phase)
            &&& cut_off(
                (tile.rotation.ordinal() + 4 - phase) % 4,
                (p.x % TILE_SIZE) as int,
                (p.y % TILE_SIZE) as int,
            )
        },
{
    let col = p.x / TILE_SIZE;
    let row = p.y / TILE_SIZE;
    let found = tile_at(grid_of(conf.tiles@), col, row);
    if found is Some {
        lemma_valid_level_tiles_are_in_place(conf, col, row);
        if found->0.tile_type.border_phase() is Some {
            lemma_border_cuts_a_triangle(found->0, p);
        }
    }
}

/// A vehicle none of whose corners is in a cell with a tile has not crashed.
pub proof fn lemma_no_tile_no_crash(player: Player, tiles: &AHashMap<usize, Tile>)
    requires
        forall|i: int|
            0 <= i < 4 ==> tile_at(
                grid_tiles(*tiles),
                (#[trigger] player.rect_spec().corners(player.rotation_spec())[i]).x / TILE_SIZE,
                player.rect_spec().corners(player.rotation_spec())[i].y / TILE_SIZE,
            ) is None,
    ensures
        !player.hits(tiles),
{
}

/// The speed at which a vehicle moves is never negative and never above the
/// highest speed.
pub proof fn lemma_cruise_within_limits(start: int, gain: int, max: int, n: nat)
    requires
        0 <= max,
    ensures
        0 <= cruise_at(start, gain, max, n) <= max,
{
}

/// Drag takes no more from a lower speed than from a higher one.
pub proof fn lemma_drag_loss_grows(low: int, high: int)
    requires
        0 <= low <= high <= i64::MAX,
    ensures
        0 <= drag_loss(low) <= drag_loss(high),
{
}

/// A vehicle at its highest speed stays there if the controls add at least
/// what drag takes at that speed, and falls below it if they add less.
pub proof fn lemma_top_speed_holds(gain: int, max: int)
    requires
        0 <= max <= i64::MAX,
    ensures
        gain >= drag_loss(max) ==> cruise_from(dragged(max), gain, max) == max,
        gain < drag_loss(max) && max > 0 ==> cruise_from(dragged(max), gain, max) < max,
{
    lemma_drag_slows(max);
}

/// While the controls add at least what drag takes at the highest speed, the
/// vehicle does not get slower from one step to the next.
pub proof fn lemma_speed_does_not_drop(start: int, gain: int, max: int, n: nat)
    requires
        0 <= max <= i64::MAX,
        gain >= drag_loss(max),
    ensures
        cruise_at(start, gain, max, n) <= cruise_at(start, gain, max, n + 1),
{
    lemma_cruise_within_limits(start, gain, max, n);
    lemma_drag_loss_grows(cruise_at(start, gain, max, n), max);
}

/// While the controls add more than drag takes at the highest speed, the
/// vehicle gains at least one stored unit of speed per step until it is at
/// its highest speed.
pub proof fn lemma_speed_climbs(start: int, gain: int, max: int, n: nat)
    requires
        0 <= max <= i64::MAX,
        gain > drag_loss(max),
    ensures
        cruise_at(start, gain, max, n) >= max || cruise_at(start, gain, max, n) >= n,
    decreases n,
{
    if n > 0 {
        let before = cruise_at(start, gain, max, (n - 1) as nat);
        lemma_speed_climbs(start, gain, max, (n - 1) as nat);
        lemma_cruise_within_limits(start, gain, max, (n - 1) as nat);
        lemma_drag_loss_grows(before, max);
    }
}

/// A vehicle that accelerates at every step, by more than drag takes at its
/// highest speed, moves at its highest speed from step `max` on at the
/// latest, and at every step after that.
pub proof fn lemma_top_speed_is_reached(start: int, gain: int, max: int, n: nat)
    requires
        0 <= max <= i64::MAX,
        gain > drag_loss(max),
        n >= max,
    ensures
        cruise_at(start, gain, max, n) == max,
{
    lemma_speed_climbs(start, gain, max, n);
    lemma_cruise_within_limits(start, gain, max, n);
}

/// A step that adds `gain` to a speed below the limit leaves, after drag,
/// 0.98 of the sum. That is no less than the speed before the step as long as
/// the speed is at most 49 times the gain (where drag and gain balance), and
/// it is more once the speed is one rounding step below that balance: 0.98 of
/// the sum is rounded toward zero, so in the last stored units under the
/// balance the speed may stay as it is.
pub proof fn lemma_accelerating_step_raises_speed(velocity: int, gain: int, max: int)
    requires
        0 <= velocity,
        0 < gain,
        velocity + gain <= max <= i64::MAX,
    ensures
        cruise_from(velocity, gain, max) == velocity + gain,
        dragged(cruise_from(velocity, gain, max)) == (49 * (velocity + gain)) / 50,
        velocity <= 49 * gain ==> dragged(cruise_from(velocity, gain, max)) >= velocity,
        velocity + 50 <= 49 * gain ==> dragged(cruise_from(velocity, gain, max)) > velocity,
        velocity > 49 * gain ==> dragged(cruise_from(velocity, gain, max)) < velocity,
{
}

/// A vehicle whose throttle is touched and whose brake is not, and which
/// stays below its highest speed, is faster after the step than before it, as
/// long as its speed is one rounding step below 49 times what the throttle
/// adds.
pub proof fn lemma_throttle_raises_speed(player: Player, input: PlayerInput, dt: int)
    requires
        player.stat.wf(),
        0 <= player.velocity,
        input.brake is None,
        0 < impulse(player.stat.acceleration as int, input.accelerate, dt),
        player.velocity + impulse(player.stat.acceleration as int, input.accelerate, dt)
            <= player.stat.max_velocity,
        player.velocity + 50 <= 49 * impulse(
            player.stat.acceleration as int,
            input.accelerate,
            dt,
        ),
    ensures
        player.cruise(input, dt) == player.velocity + impulse(
            player.stat.acceleration as int,
            input.accelerate,
            dt,
        ),
        dragged(player.cruise(input, dt)) == (49 * player.cruise(input, dt)) / 50,
        dragged(player.cruise(input, dt)) > player.velocity,
{
    lemma_accelerating_step_raises_speed(
        player.velocity as int,
        impulse(player.stat.acceleration as int, input.accelerate, dt),
        player.stat.max_velocity as int,
    );
}

/// [`cruise_at`] follows a vehicle that is driven with the same controls at
/// every step: if the vehicle enters a step with what drag has left of the
/// speed of step `n`, it moves at the speed of step `n + 1`.
pub proof fn lemma_cruise_follows(
    player: Player,
    input: PlayerInput,
    dt: int,
    start: int,
    n: nat,
)
    requires
        player.velocity == dragged(
            cruise_at(start, push(player.stat, input, dt), player.stat.max_velocity as int, n),
        ),
    ensures
        player.cruise(input, dt) == cruise_at(
            start,
            push(player.stat, input, dt),
            player.stat.max_velocity as int,
            n + 1,
        ),
        player.cruise(input, dt) == cruise_from(
            player.velocity as int,
            push(player.stat, input, dt),
            player.stat.max_velocity as int,
        ),
{
}

/// The product of a speed and a cosine or sine that is no larger than one is
/// no larger than the speed.
proof fn lemma_share_of_speed(trig: int, speed: int)
    by (nonlinear_arith)
    requires
        -UNIT <= trig <= UNIT,
        0 <= speed,
    ensures
        -speed * UNIT <= trig * speed <= speed * UNIT,
{
}

/// In one step a vehicle moves along each axis by no more than the speed of
/// that step, and so by no more than its highest speed, however long the step
/// is.
pub proof fn lemma_step_is_bounded(player: Player, input: PlayerInput, dt: int, turned: Angle)
    requires
        player.stat.wf(),
        turned.bounded(),
    ensures
        ({
            let to = player.moved_to(input, dt, turned);
            let speed = player.cruise(input, dt);
            &&& 0 <= speed <= player.stat.max_velocity
            &&& -speed <= to.x - player.position.x <= speed
            &&& -speed <= to.y - player.position.y <= speed
        }),
{
    let speed = player.cruise(input, dt);
    lemma_share_of_speed(turned.sin as int, speed);
    lemma_share_of_speed(turned.cos as int, speed);
}

} // verus!
