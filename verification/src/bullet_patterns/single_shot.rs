//! One bullet per volley, aimed along the resolved angle.

use vstd::prelude::*;
use crate::bullet::{BulletSpawnEvent, BulletType};
use crate::bullet_patterns::{BulletPatterns, Target};
use crate::countdown::Countdown;
use crate::geometry::Point;
use crate::movement_patterns::straight_line::{create_straight_line_pattern, StraightLine};
use crate::movement_patterns::MovementPatterns;
use crate::shot_schedule::ShotSchedule;

verus! {

/// A pattern that fires a single bullet at a fixed speed.
#[derive(Clone, Copy, Debug, PartialEq, Eq, Structural)]
pub struct SingleShot {
    pub bullet_type: BulletType,
    /// Speed of the bullet, in thousandths of a unit per second.
    pub speed: i32,
}

impl Default for SingleShot {
    /// A white arrow that does not move.
    fn default() -> (pattern: SingleShot)
        ensures
            pattern == (SingleShot { bullet_type: BulletType::WhiteArrow, speed: 0 }),
    {
        SingleShot { bullet_type: BulletType::WhiteArrow, speed: 0 }
    }
}

impl SingleShot {
    /// The one bullet of a volley fired from `origin` along `angle`.
    pub open spec fn event(self, origin: Point, angle: int) -> BulletSpawnEvent {
        BulletSpawnEvent {
            bullet_type: self.bullet_type,
            position: origin,
            movement_pattern: MovementPatterns::StraightLinePattern(
                StraightLine { angle: angle as i64, speed: self.speed },
            ),
        }
    }

    /// Fires from `origin` along `angle`, given in microradians.
    pub fn fire(&self, origin: Point, angle: i32) -> (event: BulletSpawnEvent)
        ensures
            event == self.event(origin, angle as int),
    {
        BulletSpawnEvent {
            bullet_type: self.bullet_type,
            position: origin,
            movement_pattern: create_straight_line_pattern(angle as i64, self.speed),
        }
    }
}

/// A single shot aimed at the player, fired every `interval` nanoseconds
/// from the first tick on, `repetitions` times.
pub fn single_shot_at_player(
    bullet_type: BulletType,
    speed: i32,
    interval: u64,
    repetitions: i32,
) -> (pattern: BulletPatterns)
    ensures
        pattern matches BulletPatterns::SingleShotPattern(shot, target, schedule)
            && shot == (SingleShot { bullet_type, speed })
            && target == Target::Player
            && schedule@ == (crate::shot_schedule::ScheduleState {
                delay: crate::countdown::CountdownState::fresh(0),
                interval: crate::countdown::CountdownState::fresh(interval as nat),
                repetitions: repetitions as int,
            }),
{
    BulletPatterns::SingleShotPattern(
        SingleShot { bullet_type, speed },
        Target::Player,
        ShotSchedule { delay: Countdown::new(0), interval: Countdown::new(interval), repetitions },
    )
}

} // verus!
