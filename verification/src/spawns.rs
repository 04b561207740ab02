//! Where and when enemies enter the playfield.

use vstd::prelude::*;
use crate::countdown::{Countdown, CountdownState};
use crate::game::{FRAME_BORDER_LEFT, FRAME_BORDER_RIGHT, FRAME_BORDER_TOP};
use crate::geometry::{interpolate, lerp, Point};

verus! {

/// Just left of the playfield.
pub const SPAWN_OUTSIDE_LEFT: i32 = FRAME_BORDER_LEFT - 50_000;

/// Just right of the playfield.
pub const SPAWN_OUTSIDE_RIGHT: i32 = FRAME_BORDER_RIGHT + 50_000;

/// Just above the playfield.
pub const SPAWN_TOP: i32 = FRAME_BORDER_TOP + 50_000;

/// The middle column of the playfield.
pub const SPAWN_CENTER: i32 = -128_000;

/// The leftmost column enemies enter on.
pub const SPAWN_LEFTMOST: i32 = FRAME_BORDER_LEFT + 10_000;

/// The rightmost column enemies enter on.
pub const SPAWN_RIGHTMOST: i32 = FRAME_BORDER_RIGHT - 10_000;

/// The countdown after which a spawner brings its entity into play.
#[derive(Clone, Copy, Debug)]
pub struct SpawnTimer(pub Countdown);

/// Lets `delta` nanoseconds pass for a spawner and says whether its time
/// has come on this tick: then the entity is brought into play and the
/// spawner is removed.
pub fn spawn_is_due(timer: &mut SpawnTimer, delta: u64) -> (due: bool)
    ensures
        final(timer).0@ == old(timer).0@.tick(delta as nat),
        due == final(timer).0@.just_finished,
{
    timer.0.tick(delta);
    timer.0.just_finished()
}

/// Keeps the time at which the next spawner of a level is due.
#[derive(Clone, Copy, Debug, Default, PartialEq, Eq, Structural)]
pub struct SpawnTimeTracker {
    /// Time from the start of the level, in nanoseconds.
    pub elapsed: u64,
}

impl SpawnTimeTracker {
    /// The time `time_to_add` nanoseconds later, as far as the machine's
    /// numbers go.
    pub open spec fn later(self, time_to_add: nat) -> SpawnTimeTracker {
        SpawnTimeTracker {
            elapsed: if self.elapsed + time_to_add > u64::MAX {
                u64::MAX
            } else {
                (self.elapsed + time_to_add) as u64
            },
        }
    }

    /// Moves the time on by `time_to_add` nanoseconds.
    pub fn increment(&mut self, time_to_add: u64)
        ensures
            *final(self) == old(self).later(time_to_add as nat),
    {
        self.elapsed = self.elapsed.saturating_add(time_to_add);
    }

    /// Moves the time on by `time_to_add` nanoseconds and returns a timer
    /// that runs out then.
    pub fn timer_with_increment(&mut self, time_to_add: u64) -> (timer: SpawnTimer)
        ensures
            *final(self) == old(self).later(time_to_add as nat),
            timer.0@ == CountdownState::fresh(final(self).elapsed as nat),
    {
        self.increment(time_to_add);
        SpawnTimer(Countdown::new(self.elapsed))
    }
}

/// The points of a row at height `y`: `num_spawns` of them, evenly spaced
/// from `leftmost` to `rightmost`, both ends included. A row of one point
/// holds the leftmost.
pub open spec fn row(leftmost: int, rightmost: int, y: i32, num_spawns: nat) -> Seq<Point> {
    Seq::new(
        num_spawns,
        |i: int| Point { x: lerp(leftmost, rightmost, i, num_spawns - 1) as i32, y },
    )
}

/// Spawn points in a row: see [`row`].
pub fn horizontal_line(leftmost: i32, rightmost: i32, y: i32, num_spawns: usize) -> (points: Vec<
    Point,
>)
    ensures
        points@ == row(leftmost as int, rightmost as int, y, num_spawns as nat),
{
    let mut points: Vec<Point> = Vec::new();
    let mut index: usize = 0;
    while index < num_spawns
        invariant
            index <= num_spawns,
            points@.len() == index,
            forall|i: int|
                0 <= i < index ==> (#[trigger] points@[i]) == (Point {
                    x: lerp(leftmost as int, rightmost as int, i, num_spawns - 1) as i32,
                    y,
                }),
        decreases num_spawns - index,
    {
        let x: i32 = interpolate(leftmost, rightmost, index, num_spawns - 1);
        points.push(Point { x, y });
        index = index + 1;
    }
    assert(points@ =~= row(leftmost as int, rightmost as int, y, num_spawns as nat));
    points
}

} // verus!
