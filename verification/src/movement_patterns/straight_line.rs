//! Travel along a fixed direction at a fixed speed.

use vstd::prelude::*;
use crate::geometry::{over_time, rate_over_time};
use crate::movement_patterns::{MovementPatterns, Step};

verus! {

/// A ray: constant direction, constant speed, no end.
#[derive(Clone, Copy, Debug, PartialEq, Eq, Structural)]
pub struct StraightLine {
    /// Direction of travel, in microradians.
    pub angle: i64,
    /// Speed, in thousandths of a unit per second.
    pub speed: i32,
}

impl Default for StraightLine {
    /// Pointing along the x axis, standing still.
    fn default() -> (line: StraightLine)
        ensures
            line == (StraightLine { angle: 0, speed: 0 }),
    {
        StraightLine { angle: 0, speed: 0 }
    }
}

impl StraightLine {
    /// The step of a tick of `delta` nanoseconds: the speed over that time,
    /// along the angle.
    pub open spec fn step(self, delta: nat) -> Step {
        Step::Along { distance: over_time(self.speed as int, delta as int) as i64, angle: self.angle }
    }

    /// Moves for `delta` nanoseconds.
    pub fn do_move(&self, delta: u64) -> (step: Step)
        ensures
            step == self.step(delta as nat),
    {
        Step::Along { distance: rate_over_time(self.speed, delta), angle: self.angle }
    }

    /// The direction the entity drifts in: its angle.
    pub fn lateral_movement(&self) -> (angle: i64)
        ensures
            angle == self.angle,
    {
        self.angle
    }

    /// A straight line never ends.
    pub fn is_finished(&self) -> (finished: bool)
        ensures
            !finished,
    {
        false
    }
}

/// The straight-line pattern with this direction and speed.
pub fn create_straight_line_pattern(angle: i64, speed: i32) -> (pattern: MovementPatterns)
    ensures
        pattern == MovementPatterns::StraightLinePattern(StraightLine { angle, speed }),
{
    MovementPatterns::StraightLinePattern(StraightLine { angle, speed })
}

} // verus!
