//! Travel straight for a while, then turn evenly toward a final direction.

use vstd::prelude::*;
use crate::geometry::{distance_squared, over_time, rate_over_time, Point};
use crate::movement_patterns::Step;

verus! {

/// A line that bends once the entity is far enough from its start. It
/// never ends.
#[derive(Clone, Copy, Debug, PartialEq, Eq, Structural)]
pub struct CurvedLine {
    /// Speed, in thousandths of a unit per second.
    pub speed: i32,
    /// How far from the start the line stays straight, in thousandths of a
    /// unit.
    pub distance_before_curve: i32,
    /// Direction of travel now, in microradians.
    pub current_angle: i64,
    /// Direction at which the turn stops.
    pub max_angle: i64,
    /// Speed of the turn, in microradians per second.
    pub rate_of_change: i32,
    /// Where the line starts.
    pub starting_position: Point,
}

impl CurvedLine {
    /// Whether an entity at `position` is farther from the start than the
    /// straight part is long.
    pub open spec fn curving(self, position: Point) -> bool {
        self.distance_before_curve < 0 || distance_squared(self.starting_position, position)
            > self.distance_before_curve * self.distance_before_curve
    }

    /// Direction after a tick of `delta` nanoseconds for an entity at
    /// `position`: unchanged on the straight part; beyond it, turned by
    /// the rate over that time, and held at the final direction: from
    /// above for a turn that rises, from below for any other.
    pub open spec fn turned(self, position: Point, delta: nat) -> int {
        if self.curving(position) {
            let swept = self.current_angle + over_time(self.rate_of_change as int, delta as int);
            if self.rate_of_change > 0 {
                if self.max_angle <= swept {
                    self.max_angle as int
                } else {
                    swept
                }
            } else {
                if self.max_angle >= swept {
                    self.max_angle as int
                } else {
                    swept
                }
            }
        } else {
            self.current_angle as int
        }
    }

    /// The pattern after a tick of `delta` nanoseconds at `position`.
    pub open spec fn advanced(self, position: Point, delta: nat) -> CurvedLine {
        CurvedLine { current_angle: self.turned(position, delta) as i64, ..self }
    }

    /// The step of a tick of `delta` nanoseconds at `position`: the speed
    /// over that time, along the direction after the turn.
    pub open spec fn step(self, position: Point, delta: nat) -> Step {
        Step::Along {
            distance: over_time(self.speed as int, delta as int) as i64,
            angle: self.turned(position, delta) as i64,
        }
    }

    /// Moves an entity at `position` for `delta` nanoseconds.
    pub fn do_move(&mut self, position: Point, delta: u64) -> (step: Step)
        ensures
            *final(self) == old(self).advanced(position, delta as nat),
            step == old(self).step(position, delta as nat),
    {
        let dx: i128 = position.x as i128 - self.starting_position.x as i128;
        let dy: i128 = position.y as i128 - self.starting_position.y as i128;
        assert(0 <= dx * dx <= 0x1_0000_0000 * 0x1_0000_0000) by (nonlinear_arith)
            requires
                -0x1_0000_0000 <= dx <= 0x1_0000_0000,
        ;
        assert(0 <= dy * dy <= 0x1_0000_0000 * 0x1_0000_0000) by (nonlinear_arith)
            requires
                -0x1_0000_0000 <= dy <= 0x1_0000_0000,
        ;
        let straight: i128 = self.distance_before_curve as i128;
        assert(0 <= straight * straight <= 0x8000_0000 * 0x8000_0000) by (nonlinear_arith)
            requires
                -0x8000_0000 <= straight <= 0x8000_0000,
        ;
        if self.distance_before_curve < 0 || dx * dx + dy * dy > straight * straight {
            let swept: i128 = self.current_angle as i128 + rate_over_time(
                self.rate_of_change,
                delta,
            ) as i128;
            let limit: i128 = self.max_angle as i128;
            let turned: i128 = if self.rate_of_change > 0 {
                if limit <= swept {
                    limit
                } else {
                    swept
                }
            } else {
                if limit >= swept {
                    limit
                } else {
                    swept
                }
            };
            self.current_angle = turned as i64;
        }
        Step::Along { distance: rate_over_time(self.speed, delta), angle: self.current_angle }
    }

    /// The direction the entity drifts in: its angle.
    pub fn lateral_movement(&self) -> (angle: i64)
        ensures
            angle == self.current_angle,
    {
        self.current_angle
    }

    /// A curved line never ends.
    pub fn is_finished(&self) -> (finished: bool)
        ensures
            !finished,
    {
        false
    }
}

} // verus!
