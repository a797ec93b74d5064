//! A race, frame by frame: first the countdown, then the drive against the
//! clock.

use crate::fixed::UNIT;
use crate::game::collision::Collider;
use crate::game::level::{cell_spawn, Level};
use crate::game::player::{dragged, Player};
use crate::game::timer::{Countdown, Timer};
use crate::input::PlayerInput;
use crate::math::Angle;
use vstd::prelude::*;

verus! {

/// How long the countdown before a race lasts: four seconds.
pub const COUNTDOWN: i64 = 4 * UNIT;

/// Whether the vehicle makes a step at a frame that is `dt` seconds long: the
/// countdown has run out by then and the vehicle has not crashed.
pub open spec fn drives(player: Player, level: &Level, countdown: Countdown, dt: i64) -> bool {
    countdown.after(dt).over() && !player.hits(&level.tiles)
}

/// Says beforehand whether the vehicle makes a step at the coming frame. Only
/// then are the controls read and is a new heading needed.
pub fn will_drive(player: &Player, level: &Level, countdown: &Countdown, dt: i64) -> (drive: bool)
    ensures
        drive == drives(*player, level, *countdown, dt),
{
    let mut ahead = *countdown;
    ahead.update(dt);
    ahead.finished() && !player.collides(&level.tiles)
}

/// Puts the vehicle on the starting cell of the level, as [`Player::init`]
/// does, and starts the countdown.
pub fn start_level(player: &mut Player, level: &Level) -> (countdown: Countdown)
    ensures
        final(player).position == cell_spawn(
            level.starting_position[0] as int,
            level.starting_position[1] as int,
        ),
        final(player).rotation == Angle::zero(),
        final(player).velocity == 0,
        final(player).stat == old(player).stat,
        countdown.count == 0,
        countdown.start == COUNTDOWN,
{
    player.init(level.starting_position);
    Countdown::new(COUNTDOWN)
}

/// One frame of a race, `dt` seconds long. The countdown goes on; once it has
/// run out, the vehicle makes its step and the clock runs. Returns whether the
/// vehicle has crashed at this frame.
///
/// `turned` is the heading that the vehicle has after its step; see
/// [`Player::movement`]. It counts only at a frame at which the vehicle makes
/// a step, and [`will_drive`] tells whether the coming frame is one.
pub fn play_level(
    player: &mut Player,
    level: &Level,
    countdown: &mut Countdown,
    timer: &mut Timer,
    input: &PlayerInput,
    dt: i64,
    turned: Angle,
) -> (crashed: bool)
    requires
        drives(*old(player), level, *old(countdown), dt) ==> old(player).stat.wf(),
        drives(*old(player), level, *old(countdown), dt) ==> turned.radians == old(
            player,
        ).turned_radians(*input, dt as int),
    ensures
        *final(countdown) == old(countdown).after(dt),
        !final(countdown).over() ==> {
            &&& !crashed
            &&& *final(player) == *old(player)
            &&& *final(timer) == *old(timer)
        },
        final(countdown).over() ==> {
            &&& crashed == old(player).hits(&level.tiles)
            &&& *final(timer) == old(timer).after(dt)
            &&& crashed ==> *final(player) == *old(player)
            &&& !crashed ==> {
                &&& final(player).stat == old(player).stat
                &&& final(player).rotation == turned
                &&& final(player).position == old(player).moved_to(*input, dt as int, turned)
                &&& final(player).velocity == dragged(old(player).cruise(*input, dt as int))
            }
        },
{
    countdown.update(dt);
    if countdown.finished() {
        let crashed = player.update(level, input, dt, turned);
        timer.update(dt);
        crashed
    } else {
        false
    }
}

} // verus!
