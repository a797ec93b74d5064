//! What the player asks of the vehicle and of the menus.

use crate::fixed::{add_fixed, plus, UNIT};
use vstd::prelude::*;

verus! {

/// The controls at one step. A control that is `None` is not touched at all,
/// which is not the same as a control held at zero.
#[derive(Debug, Clone, Copy)]
pub struct PlayerInput {
    pub accelerate: Option<i64>,
    pub turn: Option<i64>,
    pub brake: Option<i64>,
    pub boost: bool,
    pub deadzone: i64,
}

/// The keys that drive the vehicle and are held down at one step.
#[derive(Debug, Clone, Copy)]
pub struct DriveKeys {
    pub left: bool,
    pub right: bool,
    pub up: bool,
    pub down: bool,
}

/// A change of one analog control, as a device reports it.
#[derive(Debug, Clone, Copy)]
pub enum ControlEvent {
    /// The right trigger moved to this value.
    Accelerate(i64),
    /// The left trigger moved to this value.
    Brake(i64),
    /// The stick moved sideways to this value.
    Turn(i64),
}

/// Adds a full deflection to a control while a key is held.
fn push(analog: Option<i64>, held: bool, deflection: i64) -> (pushed: Option<i64>)
    requires
        deflection == UNIT || deflection == -UNIT,
    ensures
        pushed == PlayerInput::pushed(analog, held, if deflection > 0 { 1 } else { -1 }),
{
    if held {
        match analog {
            Some(value) => Some(add_fixed(value, deflection)),
            None => Some(deflection),
        }
    } else {
        analog
    }
}

impl Default for PlayerInput {
    fn default() -> (input: Self)
        ensures
            input.accelerate is None,
            input.turn is None,
            input.brake is None,
            !input.boost,
            input.deadzone == 320_000,
    {
        Self { accelerate: None, turn: None, brake: None, boost: false, deadzone: 320_000 }
    }
}

impl PlayerInput {
    /// What is left of a reported value: the value itself if it lies outside
    /// the dead zone, on either side, and nothing if it lies within.
    pub open spec fn filtered(self, value: i64) -> Option<i64> {
        if value > self.deadzone || value < -self.deadzone {
            Some(value)
        } else {
            None
        }
    }

    /// The controls after an event.
    pub open spec fn after(self, event: ControlEvent) -> PlayerInput {
        match event {
            ControlEvent::Accelerate(value) => PlayerInput {
                accelerate: self.filtered(value),
                ..self
            },
            ControlEvent::Brake(value) => PlayerInput { brake: self.filtered(value), ..self },
            ControlEvent::Turn(value) => PlayerInput { turn: self.filtered(value), ..self },
        }
    }

    /// A control to which a key adds a full deflection `toward` (one, or
    /// minus one) while it is held. A control that neither the device nor the
    /// key touches stays untouched.
    pub open spec fn pushed(analog: Option<i64>, held: bool, toward: int) -> Option<i64> {
        if held {
            Some(
                plus(
                    match analog {
                        Some(value) => value as int,
                        None => 0,
                    },
                    toward * UNIT,
                ) as i64,
            )
        } else {
            analog
        }
    }

    /// The controls with the keys added: up is full throttle, down is full
    /// brake, right turns fully clockwise and left fully the other way.
    pub open spec fn keyed(self, keys: DriveKeys) -> PlayerInput {
        PlayerInput {
            accelerate: Self::pushed(self.accelerate, keys.up, 1),
            brake: Self::pushed(self.brake, keys.down, 1),
            turn: Self::pushed(Self::pushed(self.turn, keys.right, 1), keys.left, -1),
            ..self
        }
    }

    /// Drops a reported value that lies within the dead zone.
    pub fn filter(&self, value: i64) -> (kept: Option<i64>)
        ensures
            kept == self.filtered(value),
    {
        if value as i128 > self.deadzone as i128 || (value as i128) < -(self.deadzone as i128) {
            Some(value)
        } else {
            None
        }
    }

    /// Adds the keys that are held to the controls.
    pub fn with_keys(&self, keys: DriveKeys) -> (input: PlayerInput)
        ensures
            input == self.keyed(keys),
    {
        let accelerate = push(self.accelerate, keys.up, UNIT);
        let brake = push(self.brake, keys.down, UNIT);
        let turn = push(push(self.turn, keys.right, UNIT), keys.left, -UNIT);
        PlayerInput { accelerate, brake, turn, boost: self.boost, deadzone: self.deadzone }
    }

    /// Takes an event in: the control that it names is set to the reported
    /// value, or released if the value lies within the dead zone.
    pub fn handle(&mut self, event: ControlEvent)
        ensures
            *final(self) == old(self).after(event),
    {
        match event {
            ControlEvent::Accelerate(value) => {
                self.accelerate = self.filter(value);
            },
            ControlEvent::Brake(value) => {
                self.brake = self.filter(value);
            },
            ControlEvent::Turn(value) => {
                self.turn = self.filter(value);
            },
        }
    }
}

/// What the player asks of a menu.
#[derive(Clone, Copy, Debug)]
pub struct MenuInput {
    pub click: bool,
    pub down: bool,
    pub up: bool,
    pub back: bool,
    pub deadzone: i64,
    pub prev: i64,
}

/// The keys of a menu that went down at this frame.
#[derive(Clone, Copy, Debug)]
pub struct MenuKeys {
    pub up: bool,
    pub down: bool,
    pub click: bool,
    pub back: bool,
}

/// What a game pad reports to a menu.
#[derive(Clone, Copy, Debug)]
pub enum MenuEvent {
    ConfirmPressed,
    ConfirmReleased,
    BackPressed,
    BackReleased,
    /// The stick moved up or down to this value.
    StickMoved(i64),
    /// Anything else.
    Other,
}

/// How far the stick must be pushed to move the cursor: 0.985.
pub const STICK_THRESHOLD: i64 = 985_000;

impl MenuInput {
    pub fn new() -> (input: Self)
        ensures
            !input.click && !input.down && !input.up && !input.back,
            input.deadzone == 350_000,
            input.prev == 0,
    {
        Self { click: false, down: false, up: false, back: false, deadzone: 350_000, prev: 0 }
    }

    /// The farthest the stick has been pushed, after it has moved to
    /// `value`: a value above the dead zone counts if it is above the
    /// farthest so far, a value below the dead zone if it is below.
    pub open spec fn farthest(self, value: i64) -> i64 {
        if (value > self.deadzone && value > self.prev) || (value < self.deadzone && value
            < self.prev) {
            value
        } else {
            self.prev
        }
    }

    /// The input after a report of the game pad. After every report the
    /// stick decides alone whether the cursor moves.
    pub open spec fn after(self, event: MenuEvent) -> MenuInput {
        let click = match event {
            MenuEvent::ConfirmPressed => true,
            MenuEvent::ConfirmReleased => false,
            _ => self.click,
        };
        let back = match event {
            MenuEvent::BackPressed => true,
            MenuEvent::BackReleased => false,
            _ => self.back,
        };
        let prev = match event {
            MenuEvent::StickMoved(value) => self.farthest(value),
            _ => self.prev,
        };
        MenuInput {
            click,
            back,
            prev,
            down: prev < -STICK_THRESHOLD,
            up: prev > STICK_THRESHOLD,
            deadzone: self.deadzone,
        }
    }

    /// The input at the start of a frame: the keys decide, until the game
    /// pad reports.
    pub open spec fn keyed(self, keys: MenuKeys) -> MenuInput {
        MenuInput { up: keys.up, down: keys.down, click: keys.click, back: keys.back, ..self }
    }

    /// The input after the reports of the game pad, in their order.
    pub open spec fn after_all(self, events: Seq<MenuEvent>) -> MenuInput
        decreases events.len(),
    {
        if events.len() == 0 {
            self
        } else {
            self.after_all(events.drop_last()).after(events.last())
        }
    }

    /// Starts a frame: the keys decide, until the game pad reports.
    pub fn begin_frame(&mut self, keys: MenuKeys)
        ensures
            *final(self) == old(self).keyed(keys),
    {
        self.up = keys.up;
        self.down = keys.down;
        self.click = keys.click;
        self.back = keys.back;
    }

    /// One frame of a menu: first the keys decide, then the reports of the
    /// game pad are taken in, in their order.
    pub fn update(&mut self, keys: MenuKeys, events: &Vec<MenuEvent>)
        ensures
            *final(self) == old(self).keyed(keys).after_all(events@),
    {
        self.begin_frame(keys);
        let mut i: usize = 0;
        while i < events.len()
            invariant
                i <= events.len(),
                *self == old(self).keyed(keys).after_all(events@.take(i as int)),
            decreases events.len() - i,
        {
            self.handle(events[i]);
            proof {
                assert(events@.take(i + 1).drop_last() =~= events@.take(i as int));
            }
            i += 1;
        }
        assert(events@.take(i as int) =~= events@);
    }

    /// Takes a report of the game pad in.
    pub fn handle(&mut self, event: MenuEvent)
        ensures
            *final(self) == old(self).after(event),
    {
        match event {
            MenuEvent::ConfirmPressed => {
                self.click = true;
            },
            MenuEvent::ConfirmReleased => {
                self.click = false;
            },
            MenuEvent::BackPressed => {
                self.back = true;
            },
            MenuEvent::BackReleased => {
                self.back = false;
            },
            MenuEvent::StickMoved(value) => {
                if (value > self.deadzone && value > self.prev) || (value < self.deadzone && value
                    < self.prev) {
                    self.prev = value;
                }
            },
            MenuEvent::Other => {},
        }
        self.down = self.prev < -STICK_THRESHOLD;
        self.up = self.prev > STICK_THRESHOLD;
    }
}

} // verus!
