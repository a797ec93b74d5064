//! What a player can tune.

use vstd::prelude::*;

verus! {

pub struct Config {
    pub carstat: CarStat,
}

/// The constants of one vehicle.
#[derive(Clone, Copy, Debug)]
pub struct CarStat {
    /// The highest speed, in world units per step.
    pub max_velocity: i64,
    /// How fast the vehicle turns at full deflection, in radians per second.
    pub rotation_speed: i64,
    /// How fast the vehicle gains speed at full throttle, per second.
    pub acceleration: i64,
    /// How fast the vehicle loses speed at full brake, per second.
    pub brake: i64,
    /// Width and height of the footprint of the vehicle.
    pub hitbox_size: (i64, i64),
}

impl CarStat {
    /// A vehicle can be driven if its highest speed is not negative.
    pub open spec fn wf(self) -> bool {
        self.max_velocity >= 0
    }

    /// Whether a vehicle with these constants can be driven.
    pub fn is_wf(&self) -> (b: bool)
        ensures
            b == self.wf(),
    {
        self.max_velocity >= 0
    }
}

} // verus!
