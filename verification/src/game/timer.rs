//! A timer that fires again and again, and a countdown that runs once.
//! Times are fixed-point seconds.

use crate::fixed::{add_fixed, plus};
use vstd::prelude::*;

verus! {

/// A timer that is done whenever `wait` seconds have gone by.
#[derive(Debug, Clone, Copy)]
pub struct Timer {
    pub elapsed: i64,
    pub wait: i64,
}

/// A countdown from `start` seconds to zero.
#[derive(Debug, Clone, Copy)]
pub struct Countdown {
    pub count: i64,
    pub start: i64,
}

impl Timer {
    pub fn new(wait: i64) -> (timer: Self)
        ensures
            timer.elapsed == 0,
            timer.wait == wait,
    {
        Self { elapsed: 0, wait }
    }

    /// Whether the time to wait has gone by.
    pub open spec fn done(self) -> bool {
        self.wait <= self.elapsed
    }

    /// The timer after `elapsed_time` has gone by.
    pub open spec fn after(self, elapsed_time: i64) -> Timer {
        Timer { elapsed: plus(self.elapsed as int, elapsed_time as int) as i64, wait: self.wait }
    }

    /// Lets `elapsed_time` go by and says whether the timer is done.
    pub fn update(&mut self, elapsed_time: i64) -> (done: bool)
        ensures
            *final(self) == old(self).after(elapsed_time),
            done == final(self).done(),
    {
        self.elapsed = add_fixed(self.elapsed, elapsed_time);
        self.is_done()
    }

    pub fn is_done(&self) -> (done: bool)
        ensures
            done == self.done(),
    {
        self.wait <= self.elapsed
    }

    /// Starts the next round: takes every whole round that has gone by out
    /// of the elapsed time and keeps the rest. A timer that is not done is
    /// left as it is.
    pub fn reset(&mut self)
        requires
            old(self).wait > 0,
        ensures
            final(self).wait == old(self).wait,
            final(self).elapsed == if old(self).done() {
                old(self).elapsed % old(self).wait
            } else {
                old(self).elapsed
            },
            !final(self).done(),
    {
        if self.is_done() {
            self.elapsed = self.elapsed % self.wait;
        }
    }

    pub fn elapsed(&self) -> (elapsed: i64)
        ensures
            elapsed == self.elapsed,
    {
        self.elapsed
    }

    /// The time until the timer is done; negative once it is.
    pub fn time_left(&self) -> (left: i64)
        ensures
            left == crate::fixed::saturate(self.wait - self.elapsed),
    {
        crate::fixed::narrow(self.wait as i128 - self.elapsed as i128)
    }
}

impl Countdown {
    pub fn new(start: i64) -> (countdown: Self)
        ensures
            countdown.count == 0,
            countdown.start == start,
    {
        Self { count: 0, start }
    }

    /// Whether the countdown has run out.
    pub open spec fn over(self) -> bool {
        self.count >= self.start
    }

    pub fn finished(&self) -> (over: bool)
        ensures
            over == self.over(),
    {
        self.count >= self.start
    }

    /// The countdown after `delta` has gone by: it stands still once it has
    /// run out.
    pub open spec fn after(self, delta: i64) -> Countdown {
        if self.over() {
            self
        } else {
            Countdown { count: plus(self.count as int, delta as int) as i64, start: self.start }
        }
    }

    /// Lets `delta` go by, unless the countdown has run out already.
    pub fn update(&mut self, delta: i64)
        ensures
            *final(self) == old(self).after(delta),
    {
        if !self.finished() {
            self.count = add_fixed(self.count, delta);
        }
    }

    /// The time until the countdown runs out, and zero after that.
    pub fn time_left(&self) -> (left: i64)
        ensures
            left == if self.over() {
                0
            } else {
                crate::fixed::saturate(self.start - self.count)
            },
    {
        if self.finished() {
            0
        } else {
            crate::fixed::narrow(self.start as i128 - self.count as i128)
        }
    }
}

} // verus!
