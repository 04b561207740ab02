//! Bullet patterns: what an emitter fires when its schedule says so.

pub mod shotgun;
pub mod single_shot;
pub mod starburst;

use vstd::prelude::*;
use crate::bullet::BulletSpawnEvent;
use crate::bullet_patterns::shotgun::Shotgun;
use crate::bullet_patterns::single_shot::SingleShot;
use crate::bullet_patterns::starburst::Starburst;
use crate::geometry::{Point, DOWN};
use crate::shot_schedule::{run_schedule, ScheduleState, ShotSchedule};

verus! {

/// Why a pattern could not be made.
#[derive(Clone, Copy, Debug, PartialEq, Eq, Structural)]
pub enum PatternError {
    /// The list of bullet types is empty.
    EmptyBulletList,
    /// The spread is negative.
    NegativeSpread,
    /// The low end of the speed range lies above the high end.
    InvertedSpeedRange,
}

impl PatternError {
    /// What is wrong, in words.
    pub fn describe(&self) -> (message: &'static str)
        ensures
            message == match *self {
                PatternError::EmptyBulletList => "the list of bullet types is empty",
                PatternError::NegativeSpread => "the spread is negative",
                PatternError::InvertedSpeedRange => "the low end of the speed range lies above the high end",
            },
    {
        match self {
            PatternError::EmptyBulletList => "the list of bullet types is empty",
            PatternError::NegativeSpread => "the spread is negative",
            PatternError::InvertedSpeedRange => "the low end of the speed range lies above the high end",
        }
    }
}

/// Where a pattern aims.
#[derive(Clone, Copy, Debug, PartialEq, Eq, Structural)]
pub enum Target {
    /// At the player, wherever the player is when the pattern fires.
    Player,
    /// Along a fixed angle, in microradians.
    Angle(i32),
}

impl Target {
    /// The firing angle under this policy; `aim_at_player` is the angle
    /// from the emitter to the player.
    pub open spec fn angle(self, aim_at_player: int) -> int {
        match self {
            Target::Player => aim_at_player,
            Target::Angle(angle) => angle as int,
        }
    }

    /// Resolves the firing angle, in microradians.
    pub fn get_angle(&self, aim_at_player: i32) -> (angle: i32)
        ensures
            angle == self.angle(aim_at_player as int),
    {
        match self {
            Target::Player => aim_at_player,
            Target::Angle(angle) => *angle,
        }
    }
}

/// Aiming by direction only: at the player or straight down.
#[derive(Clone, Copy, Debug, PartialEq, Eq, Structural)]
pub enum BulletPatternTarget {
    Player,
    Down,
}

impl BulletPatternTarget {
    /// The same policy as a [`Target`].
    pub fn target(&self) -> (target: Target)
        ensures
            target == match *self {
                BulletPatternTarget::Player => Target::Player,
                BulletPatternTarget::Down => Target::Angle(DOWN),
            },
    {
        match self {
            BulletPatternTarget::Player => Target::Player,
            BulletPatternTarget::Down => Target::Angle(DOWN),
        }
    }
}

/// The closed set of bullet patterns, each with its target and schedule.
#[derive(Debug)]
pub enum BulletPatterns {
    SingleShotPattern(SingleShot, Target, ShotSchedule),
    StarburstPattern(Starburst, Target, ShotSchedule),
    ShotgunPattern(Shotgun, Target, ShotSchedule),
}

impl BulletPatterns {
    /// The schedule of the pattern.
    pub open spec fn schedule(self) -> ScheduleState {
        match self {
            BulletPatterns::SingleShotPattern(_, _, schedule) => schedule@,
            BulletPatterns::StarburstPattern(_, _, schedule) => schedule@,
            BulletPatterns::ShotgunPattern(_, _, schedule) => schedule@,
        }
    }

    /// The target of the pattern.
    pub open spec fn target(self) -> Target {
        match self {
            BulletPatterns::SingleShotPattern(_, target, _) => target,
            BulletPatterns::StarburstPattern(_, target, _) => target,
            BulletPatterns::ShotgunPattern(_, target, _) => target,
        }
    }

    /// Whether `other` is this pattern with, at most, another state of the
    /// schedule.
    pub open spec fn same_pattern(self, other: BulletPatterns) -> bool {
        match (self, other) {
            (
                BulletPatterns::SingleShotPattern(mine, aim, _),
                BulletPatterns::SingleShotPattern(theirs, their_aim, _),
            ) => mine == theirs && aim == their_aim,
            (
                BulletPatterns::StarburstPattern(mine, aim, _),
                BulletPatterns::StarburstPattern(theirs, their_aim, _),
            ) => mine@ == theirs@ && aim == their_aim,
            (
                BulletPatterns::ShotgunPattern(mine, aim, _),
                BulletPatterns::ShotgunPattern(theirs, their_aim, _),
            ) => mine@ == theirs@ && aim == their_aim,
            _ => false,
        }
    }

    /// Whether `volley` can be what the pattern fires from `origin` when
    /// the player is seen under the angle `aim_at_player`: exactly the
    /// volley of a single shot or a starburst, any admitted volley of a
    /// shotgun.
    pub open spec fn admits_volley(
        self,
        origin: Point,
        aim_at_player: int,
        volley: Seq<BulletSpawnEvent>,
    ) -> bool {
        let angle = self.target().angle(aim_at_player);
        match self {
            BulletPatterns::SingleShotPattern(shot, _, _) => volley == seq![
                shot.event(origin, angle),
            ],
            BulletPatterns::StarburstPattern(burst, _, _) => volley == burst@.volley(origin, angle),
            BulletPatterns::ShotgunPattern(gun, _, _) => gun@.admits_volley(origin, angle, volley),
        }
    }
}

/// Lets `delta` nanoseconds pass for a pattern whose emitter stands at
/// `origin` and sees the player under the angle `aim_at_player`
/// (microradians), and returns what it fires on this tick.
///
/// The schedule advances by one tick. On a tick on which it fires, the
/// result is one whole volley aimed by the pattern's target; on any other
/// tick it is empty. The pattern itself stays as it is.
pub fn fire_bullet_pattern(
    bullet_pattern: &mut BulletPatterns,
    delta: u64,
    origin: Point,
    aim_at_player: i32,
) -> (volley: Vec<BulletSpawnEvent>)
    ensures
        old(bullet_pattern).same_pattern(*final(bullet_pattern)),
        final(bullet_pattern).schedule() == old(bullet_pattern).schedule().step(delta as nat).0,
        final(bullet_pattern).schedule().wf(),
        old(bullet_pattern).schedule().step(delta as nat).1 ==> old(bullet_pattern).admits_volley(
            origin,
            aim_at_player as int,
            volley@,
        ),
        !old(bullet_pattern).schedule().step(delta as nat).1 ==> volley@.len() == 0,
{
    match bullet_pattern {
        BulletPatterns::SingleShotPattern(shot, target, schedule) => {
            let angle: i32 = target.get_angle(aim_at_player);
            let mut volley: Vec<BulletSpawnEvent> = Vec::new();
            if run_schedule(schedule, delta) {
                volley.push(shot.fire(origin, angle));
                assert(volley@ =~= seq![shot.event(origin, angle as int)]);
            }
            volley
        },
        BulletPatterns::StarburstPattern(burst, target, schedule) => {
            let angle: i32 = target.get_angle(aim_at_player);
            if run_schedule(schedule, delta) {
                burst.fire(origin, angle)
            } else {
                Vec::new()
            }
        },
        BulletPatterns::ShotgunPattern(gun, target, schedule) => {
            let angle: i32 = target.get_angle(aim_at_player);
            if run_schedule(schedule, delta) {
                gun.fire(origin, angle)
            } else {
                Vec::new()
            }
        },
    }
}

} // verus!
