//! Travel along a fixed direction while the speed runs evenly from a
//! starting speed to a final speed.

use vstd::prelude::*;
use crate::countdown::total_time;
use crate::geometry::{over_time, rate_over_time, toward_zero, HALF_PI, NANOS_PER_SECOND};
use crate::movement_patterns::{MovementPatterns, Step};

verus! {

/// A speed ramp along a fixed direction. The elapsed time is the progress
/// of the pattern; the current speed follows from it.
#[derive(Clone, Copy, Debug, PartialEq, Eq, Structural)]
pub struct Decelerate {
    /// Direction of travel, in microradians.
    pub angle: i64,
    /// Speed at the start, in thousandths of a unit per second.
    pub starting_speed: i32,
    /// Speed at the end of the ramp and from then on.
    pub final_speed: i32,
    /// Length of the ramp, in nanoseconds.
    pub duration: u64,
    /// Time spent on the ramp so far, in nanoseconds.
    pub elapsed: u64,
}

impl Decelerate {
    /// Speed after `elapsed` nanoseconds: the starting speed plus the share
    /// `elapsed / duration` of the way to the final speed, rounded toward
    /// the starting speed; the final speed once the ramp is over. A ramp
    /// of no duration never changes the speed.
    pub open spec fn speed_at(self, elapsed: int) -> int {
        if self.duration == 0 {
            self.starting_speed as int
        } else if elapsed >= self.duration {
            self.final_speed as int
        } else {
            self.starting_speed + toward_zero(
                (self.final_speed - self.starting_speed) * elapsed,
                self.duration as int,
            )
        }
    }

    /// Speed now.
    pub open spec fn speed(self) -> int {
        self.speed_at(self.elapsed as int)
    }

    /// Change of speed per second, in thousandths of a unit per second,
    /// rounded toward zero; zero for a ramp of no duration.
    pub open spec fn rate(self) -> int {
        if self.duration == 0 {
            0
        } else {
            toward_zero(
                (self.final_speed - self.starting_speed) * NANOS_PER_SECOND,
                self.duration as int,
            )
        }
    }

    /// Whether the speed has crossed the final speed in the direction the
    /// ramp runs: downward where it starts at or above the final speed,
    /// upward where it starts below.
    pub open spec fn finished(self) -> bool {
        if self.starting_speed >= self.final_speed {
            self.speed() <= self.final_speed
        } else {
            self.speed() >= self.final_speed
        }
    }

    /// The pattern after `delta` more nanoseconds.
    pub open spec fn advanced(self, delta: nat) -> Decelerate {
        Decelerate {
            elapsed: if self.elapsed + delta > u64::MAX {
                u64::MAX
            } else {
                (self.elapsed + delta) as u64
            },
            ..self
        }
    }

    /// The step of a tick of `delta` nanoseconds: the speed reached at the
    /// end of the tick, over the time of the tick, along the angle.
    pub open spec fn step(self, delta: nat) -> Step {
        Step::Along {
            distance: over_time(self.advanced(delta).speed(), delta as int) as i64,
            angle: self.angle,
        }
    }

    /// The pattern after the ticks `deltas`, in order.
    pub open spec fn after(self, deltas: Seq<nat>) -> Decelerate
        decreases deltas.len(),
    {
        if deltas.len() == 0 {
            self
        } else {
            self.after(deltas.drop_last()).advanced(deltas.last())
        }
    }

    /// Speed now, in thousandths of a unit per second.
    pub fn current_speed(&self) -> (speed: i32)
        ensures
            speed == self.speed(),
            self.starting_speed <= self.final_speed ==> self.starting_speed <= speed
                <= self.final_speed,
            self.starting_speed >= self.final_speed ==> self.final_speed <= speed
                <= self.starting_speed,
    {
        if self.duration == 0 {
            self.starting_speed
        } else if self.elapsed >= self.duration {
            self.final_speed
        } else {
            let span: i128 = self.final_speed as i128 - self.starting_speed as i128;
            let magnitude: i128 = if span >= 0 {
                span
            } else {
                -span
            };
            assert(0 <= magnitude * (self.elapsed as i128) <= 0x1_0000_0000
                * 0x1_0000_0000_0000_0000) by (nonlinear_arith)
                requires
                    0 <= magnitude <= 0x1_0000_0000,
                    0 <= self.elapsed <= 0x1_0000_0000_0000_0000,
            ;
            let product: i128 = magnitude * (self.elapsed as i128);
            let share: i128 = product / (self.duration as i128);
            assert(0 <= share <= magnitude) by (nonlinear_arith)
                requires
                    0 <= magnitude,
                    0 <= self.elapsed < self.duration,
                    product == magnitude * self.elapsed,
                    share == (product as int) / (self.duration as int),
            ;
            assert(span * self.elapsed == if span >= 0 {
                product as int
            } else {
                -(product as int)
            }) by (nonlinear_arith)
                requires
                    product == magnitude * self.elapsed,
                    magnitude == if span >= 0 {
                        span as int
                    } else {
                        -(span as int)
                    },
            ;
            assert(product == 0 ==> share == 0);
            if span >= 0 {
                (self.starting_speed as i128 + share) as i32
            } else {
                (self.starting_speed as i128 - share) as i32
            }
        }
    }

    /// Change of speed per second; zero for a ramp of no duration.
    pub fn deceleration(&self) -> (rate: i64)
        ensures
            rate == self.rate(),
            self.duration == 0 ==> rate == 0,
    {
        if self.duration == 0 {
            0
        } else {
            let span: i128 = self.final_speed as i128 - self.starting_speed as i128;
            let magnitude: i128 = if span >= 0 {
                span
            } else {
                -span
            };
            let product: i128 = magnitude * (NANOS_PER_SECOND as i128);
            let share: i128 = product / (self.duration as i128);
            assert(0 <= share <= product) by (nonlinear_arith)
                requires
                    0 <= product,
                    0 < self.duration,
                    share == (product as int) / (self.duration as int),
            ;
            assert(span * NANOS_PER_SECOND == if span >= 0 {
                product as int
            } else {
                -(product as int)
            }) by (nonlinear_arith)
                requires
                    product == magnitude * NANOS_PER_SECOND,
                    magnitude == if span >= 0 {
                        span as int
                    } else {
                        -(span as int)
                    },
            ;
            assert(product == 0 ==> share == 0);
            if span >= 0 {
                share as i64
            } else {
                (-share) as i64
            }
        }
    }

    /// Moves for `delta` nanoseconds: the ramp advances, and the entity
    /// travels at the speed it has reached.
    pub fn do_move(&mut self, delta: u64) -> (step: Step)
        ensures
            *final(self) == old(self).advanced(delta as nat),
            step == old(self).step(delta as nat),
    {
        self.elapsed = self.elapsed.saturating_add(delta);
        let speed: i32 = self.current_speed();
        Step::Along { distance: rate_over_time(speed, delta), angle: self.angle }
    }

    /// The direction the entity drifts in: a quarter turn, which counts as
    /// not drifting sideways, once it stands still, else its angle.
    pub fn lateral_movement(&self) -> (angle: i64)
        ensures
            angle == if self.speed() == 0 {
                HALF_PI as i64
            } else {
                self.angle
            },
    {
        if self.current_speed() == 0 {
            HALF_PI as i64
        } else {
            self.angle
        }
    }

    /// Whether the speed has crossed the final speed.
    pub fn is_finished(&self) -> (finished: bool)
        ensures
            finished == self.finished(),
    {
        let speed: i32 = self.current_speed();
        if self.starting_speed >= self.final_speed {
            speed <= self.final_speed
        } else {
            speed >= self.final_speed
        }
    }
}

/// A ramp along `angle` from `starting_speed` to `final_speed` over
/// `time_to_decelerate` nanoseconds. With no time at all the speed never
/// changes.
pub fn create_decelerate_pattern(
    angle: i64,
    starting_speed: i32,
    final_speed: i32,
    time_to_decelerate: u64,
) -> (pattern: MovementPatterns)
    ensures
        pattern == MovementPatterns::DeceleratePattern(
            Decelerate {
                angle,
                starting_speed,
                final_speed,
                duration: time_to_decelerate,
                elapsed: 0,
            },
        ),
{
    MovementPatterns::DeceleratePattern(
        Decelerate { angle, starting_speed, final_speed, duration: time_to_decelerate, elapsed: 0 },
    )
}

/// The time spent on the ramp is the time of the ticks, as far as the
/// machine's numbers go, and nothing else of the pattern changes.
pub proof fn lemma_elapsed_adds_up(pattern: Decelerate, deltas: Seq<nat>)
    ensures
        pattern.after(deltas) == (Decelerate {
            elapsed: if pattern.elapsed + total_time(deltas) > u64::MAX {
                u64::MAX
            } else {
                (pattern.elapsed + total_time(deltas)) as u64
            },
            ..pattern
        }),
    decreases deltas.len(),
{
    if deltas.len() > 0 {
        lemma_elapsed_adds_up(pattern, deltas.drop_last());
    }
}

/// A fresh ramp of positive duration that has been advanced by exactly
/// its duration, in ticks of any size, moves at exactly its final speed
/// and is finished.
pub proof fn lemma_final_speed_reached(pattern: Decelerate, deltas: Seq<nat>)
    requires
        pattern.duration > 0,
        pattern.elapsed == 0,
        total_time(deltas) >= pattern.duration,
    ensures
        pattern.after(deltas).speed() == pattern.final_speed,
        pattern.after(deltas).finished(),
{
    lemma_elapsed_adds_up(pattern, deltas);
}

/// A fresh ramp between two different speeds is not finished before its
/// duration is over, and its speed stays between the two.
pub proof fn lemma_not_finished_early(pattern: Decelerate, deltas: Seq<nat>)
    requires
        pattern.duration > 0,
        pattern.elapsed == 0,
        pattern.starting_speed != pattern.final_speed,
        total_time(deltas) < pattern.duration,
    ensures
        !pattern.after(deltas).finished(),
        pattern.starting_speed < pattern.final_speed ==> pattern.starting_speed
            <= pattern.after(deltas).speed() < pattern.final_speed,
        pattern.starting_speed > pattern.final_speed ==> pattern.final_speed
            < pattern.after(deltas).speed() <= pattern.starting_speed,
{
    lemma_elapsed_adds_up(pattern, deltas);
    let elapsed = total_time(deltas) as int;
    let duration = pattern.duration as int;
    let span = pattern.final_speed - pattern.starting_speed;
    if span > 0 {
        assert(0 <= (span * elapsed) / duration < span) by (nonlinear_arith)
            requires
                span > 0,
                0 <= elapsed < duration,
        ;
        assert(span * elapsed >= 0) by (nonlinear_arith)
            requires
                span > 0,
                0 <= elapsed,
        ;
    } else {
        assert(0 <= ((-span) * elapsed) / duration < -span) by (nonlinear_arith)
            requires
                span < 0,
                0 <= elapsed < duration,
        ;
        assert(-(span * elapsed) == (-span) * elapsed) by (nonlinear_arith);
        assert(span * elapsed <= 0) by (nonlinear_arith)
            requires
                span < 0,
                0 <= elapsed,
        ;
    }
}

} // verus!
