//! Rumia's second spellcard: a move to the middle, then a shotgun aimed at
//! the player and a slow starburst until her health is gone.

use vstd::prelude::*;
use crate::bosses::boss_health_bar::{
    spawn_boss_health_bar,
    BossHealthBar,
    HealthBarState,
    BOSS_HEALTH,
};
use crate::bosses::rumia::spell1::{repeated, ATTACK_FIRST_FRAME, ATTACK_LAST_FRAME, MOVE_TIME};
use crate::bosses::rumia::{Removal, RumiaFight};
use crate::bullet::BulletType;
use crate::bullet_patterns::shotgun::{Shotgun, ShotgunSpec};
use crate::bullet_patterns::starburst::{Starburst, StarburstSpec};
use crate::bullet_patterns::{BulletPatterns, Target};
use crate::countdown::CountdownState;
use crate::geometry::{distance_squared, is_sqrt, Point, DOWN, TAU};
use crate::movement_patterns::move_to::create_move_to_pattern;
use crate::movement_patterns::MovementPatterns;
use crate::shot_schedule::{create_shot_schedule, ScheduleState, ENDLESS};
use crate::spawns::{SPAWN_CENTER, SPAWN_TOP};
use crate::sprites::{set_one_off_animation, AnimationIndices};

verus! {

/// Width of the shotgun's cone: a sixteenth of a turn, in microradians.
pub const SHOTGUN_SPREAD: i32 = 392_699;

/// Time before the first shotgun volley and between any two, in
/// nanoseconds.
pub const SHOTGUN_INTERVAL: u64 = 1_500_000_000;

/// Time between two starbursts, in nanoseconds.
pub const STARBURST_INTERVAL: u64 = 5_000_000_000;

/// Where the second spellcard stands.
#[derive(Clone, Copy, Debug, Default, PartialEq, Eq, Structural)]
pub enum Spell2State {
    #[default]
    Inactive,
    MoveToPhase1,
    Phase1,
}

/// What entering the phase of the second spellcard sets up: the emitters
/// to place where Rumia stands, and her health bar.
#[derive(Debug)]
pub struct Spell2Setup {
    pub emitters: Vec<BulletPatterns>,
    pub health_bar: BossHealthBar,
}

/// Where Rumia flies to at the start of the spellcard.
pub open spec fn spell2_waypoint() -> Point {
    Point { x: SPAWN_CENTER, y: (SPAWN_TOP - 150_000) as i32 }
}

/// The shotgun of the spellcard.
pub open spec fn spell2_shotgun() -> ShotgunSpec {
    ShotgunSpec {
        bullets: Seq::new(25, |i: int| BulletType::RedRimmedCircle),
        spread: SHOTGUN_SPREAD as int,
        speed_range: (200_000, 300_000),
    }
}

/// The starburst of the spellcard.
pub open spec fn spell2_starburst() -> StarburstSpec {
    StarburstSpec {
        bullets: Seq::new(5, |i: int| BulletType::BlueRimmedCircle),
        num_lines: 48,
        spread: TAU as int,
        speed_range: (50_000, 250_000),
        offset: 0,
    }
}

/// A schedule without end that waits `delay` nanoseconds and then fires
/// every `interval` nanoseconds.
pub open spec fn endless_every(delay: nat, interval: nat) -> ScheduleState {
    ScheduleState {
        delay: CountdownState::fresh(delay),
        interval: CountdownState::fresh(interval),
        repetitions: ENDLESS as int,
    }
}

/// Ends the spellcard, as when the fight or the level leaves it: the
/// spellcard goes inactive, and what it has brought into play, its
/// emitters, its health bar and the bullets, is to be removed. The boss
/// stays.
pub fn reset_spell2(fight: &mut RumiaFight) -> (removal: Removal)
    ensures
        final(fight)@ == old(fight)@.with_spell2(Spell2State::Inactive),
        final(fight)@.wf(),
        removal == (Removal { spellcard: true, boss: false }),
{
    fight.set_spell2_state(Spell2State::Inactive);
    Removal { spellcard: true, boss: false }
}

/// Starts the spellcard: Rumia flies from `start` to her place in
/// [`MOVE_TIME`], and the spellcard waits for her to get there.
pub fn enter_spell2(start: Point) -> (entered: (Spell2State, MovementPatterns))
    ensures
        entered.0 == Spell2State::MoveToPhase1,
        entered.1 matches MovementPatterns::MoveToPattern(made) && made@.destination
            == spell2_waypoint() && is_sqrt(
            distance_squared(start, spell2_waypoint()),
            made@.distance,
        ) && made@.duration == MOVE_TIME && made@.elapsed == 0,
{
    (
        Spell2State::MoveToPhase1,
        create_move_to_pattern(start, Point { x: SPAWN_CENTER, y: SPAWN_TOP - 150_000 }, MOVE_TIME),
    )
}

/// Waits for the move to end: once Rumia's movement pattern is finished,
/// the phase is asked for.
pub fn wait_for_move_to_phase1(state: Spell2State, movement: &MovementPatterns) -> (next: Option<
    Spell2State,
>)
    ensures
        next == if state == Spell2State::MoveToPhase1 && movement.finished() {
            Some(Spell2State::Phase1)
        } else {
            None
        },
{
    let moving: bool = match state {
        Spell2State::MoveToPhase1 => true,
        _ => false,
    };
    if moving && crate::movement_patterns::is_finished(movement) {
        Some(Spell2State::Phase1)
    } else {
        None
    }
}

/// Sets up the phase: Rumia shows her attack once; a shotgun of
/// twenty-five red-rimmed circles fires at the player every
/// [`SHOTGUN_INTERVAL`], a starburst of five rings of forty-eight
/// blue-rimmed circles fires downward every [`STARBURST_INTERVAL`], both
/// without end; and Rumia gets a full health bar.
pub fn phase1_setup(indices: &mut AnimationIndices) -> (setup: Spell2Setup)
    ensures
        setup.emitters@.len() == 2,
        setup.emitters@[0] matches BulletPatterns::ShotgunPattern(gun, target, timing) && gun@
            == spell2_shotgun() && target == Target::Player && timing@ == endless_every(
            SHOTGUN_INTERVAL as nat,
            SHOTGUN_INTERVAL as nat,
        ),
        setup.emitters@[1] matches BulletPatterns::StarburstPattern(burst, target, timing)
            && burst@ == spell2_starburst() && target == Target::Angle(DOWN) && timing@
            == endless_every(0, STARBURST_INTERVAL as nat),
        setup.health_bar@ == (HealthBarState {
            current: BOSS_HEALTH as int,
            maximum: BOSS_HEALTH as int,
        }),
        *final(indices) == (AnimationIndices {
            first: ATTACK_FIRST_FRAME,
            last: ATTACK_LAST_FRAME,
            next_first: old(indices).first,
            next_last: old(indices).last,
        }),
{
    set_one_off_animation(indices, ATTACK_FIRST_FRAME, ATTACK_LAST_FRAME);
    let gun = Shotgun::new(
        repeated(BulletType::RedRimmedCircle, 25),
        SHOTGUN_SPREAD,
        (200_000, 300_000),
    );
    let burst = Starburst::new(
        repeated(BulletType::BlueRimmedCircle, 5),
        48,
        TAU,
        (50_000, 250_000),
        0,
    );
    let mut emitters: Vec<BulletPatterns> = Vec::new();
    emitters.push(
        BulletPatterns::ShotgunPattern(
            gun.unwrap(),
            Target::Player,
            create_shot_schedule(SHOTGUN_INTERVAL, SHOTGUN_INTERVAL, ENDLESS),
        ),
    );
    emitters.push(
        BulletPatterns::StarburstPattern(
            burst.unwrap(),
            Target::Angle(DOWN),
            create_shot_schedule(0, STARBURST_INTERVAL, ENDLESS),
        ),
    );
    Spell2Setup { emitters, health_bar: spawn_boss_health_bar() }
}

} // verus!
