//! Rumia's first spellcard: three phases of starbursts, with a move to a
//! new place between any two, over and over until her health is gone.

use vstd::prelude::*;
use crate::bullet::BulletType;
use crate::bullet_patterns::starburst::{Starburst, StarburstSpec};
use crate::bullet_patterns::{BulletPatterns, Target};
use crate::countdown::{Countdown, CountdownState};
use crate::game::FRAME_BORDER_TOP;
use crate::geometry::{distance_squared, is_sqrt, Point, DOWN, TAU};
use crate::movement_patterns::move_to::create_move_to_pattern;
use crate::movement_patterns::MovementPatterns;
use crate::shot_schedule::{create_shot_schedule, ScheduleState, ShotSchedule};
use crate::spawns::{SPAWN_CENTER, SPAWN_TOP};
use crate::sprites::{set_one_off_animation, AnimationIndices};

verus! {

/// How long each phase lasts, in nanoseconds.
pub const PHASE_TIME: u64 = 1_000_000_000;

/// How long each move between phases takes, in nanoseconds.
pub const MOVE_TIME: u64 = 1_500_000_000;

/// Time between two waves of the second phase, in nanoseconds.
pub const WAVE_DELAY: u64 = 200_000_000;

/// Turn between two waves of the second phase, in microradians.
pub const WAVE_TURN: i32 = 1_000_000;

/// Speed of the slowest ring of a starburst, in thousandths of a unit per
/// second.
pub const RING_SPEED_LOW: i32 = 120_000;

/// Speed of the fastest ring of a starburst.
pub const RING_SPEED_HIGH: i32 = 200_000;

/// First frame of the animation Rumia shows when she attacks.
pub const ATTACK_FIRST_FRAME: usize = 0;

/// Last frame of the animation Rumia shows when she attacks.
pub const ATTACK_LAST_FRAME: usize = 3;

/// Where the first spellcard stands.
#[derive(Clone, Copy, Debug, Default, PartialEq, Eq, Structural)]
pub enum Spell1State {
    #[default]
    Inactive,
    Phase1,
    MoveToPhase2,
    Phase2,
    MoveToPhase3,
    Phase3,
    MoveToPhase1,
}

impl Spell1State {
    /// Whether Rumia fires in this state and waits for its timer.
    pub open spec fn is_phase(self) -> bool {
        self == Spell1State::Phase1 || self == Spell1State::Phase2 || self == Spell1State::Phase3
    }

    /// Whether Rumia moves to a new place in this state.
    pub open spec fn is_move(self) -> bool {
        self == Spell1State::MoveToPhase2 || self == Spell1State::MoveToPhase3 || self
            == Spell1State::MoveToPhase1
    }

    /// The state that follows this one: each phase is followed by the move
    /// to the next, each move by the phase it leads to, and the third
    /// phase leads back to the first. The inactive state has no follower.
    pub open spec fn follower(self) -> Spell1State {
        match self {
            Spell1State::Inactive => Spell1State::Inactive,
            Spell1State::Phase1 => Spell1State::MoveToPhase2,
            Spell1State::MoveToPhase2 => Spell1State::Phase2,
            Spell1State::Phase2 => Spell1State::MoveToPhase3,
            Spell1State::MoveToPhase3 => Spell1State::Phase3,
            Spell1State::Phase3 => Spell1State::MoveToPhase1,
            Spell1State::MoveToPhase1 => Spell1State::Phase1,
        }
    }

    /// Where Rumia flies to in this state, if it is a move.
    pub open spec fn waypoint(self) -> Option<Point> {
        match self {
            Spell1State::MoveToPhase2 => Some(Point { x: SPAWN_CENTER, y: (SPAWN_TOP - 100_000) as i32 }),
            Spell1State::MoveToPhase3 => Some(
                Point { x: (SPAWN_CENTER - 150_000) as i32, y: (FRAME_BORDER_TOP - 100_000) as i32 },
            ),
            Spell1State::MoveToPhase1 => Some(
                Point { x: (SPAWN_CENTER + 150_000) as i32, y: (FRAME_BORDER_TOP - 100_000) as i32 },
            ),
            _ => None,
        }
    }

    /// The follower of this state.
    pub fn next(self) -> (next: Spell1State)
        ensures
            next == self.follower(),
    {
        match self {
            Spell1State::Inactive => Spell1State::Inactive,
            Spell1State::Phase1 => Spell1State::MoveToPhase2,
            Spell1State::MoveToPhase2 => Spell1State::Phase2,
            Spell1State::Phase2 => Spell1State::MoveToPhase3,
            Spell1State::MoveToPhase3 => Spell1State::Phase3,
            Spell1State::Phase3 => Spell1State::MoveToPhase1,
            Spell1State::MoveToPhase1 => Spell1State::Phase1,
        }
    }
}

/// The timer of one phase, tagged with the phase it belongs to.
#[derive(Clone, Copy, Debug)]
pub struct SpellTimer {
    pub phase: Spell1State,
    pub countdown: Countdown,
}

/// What entering a phase sets up: the emitters to place where Rumia
/// stands, and the timer that ends the phase.
#[derive(Debug)]
pub struct PhaseSetup {
    pub emitters: Vec<BulletPatterns>,
    pub timer: SpellTimer,
}

/// The state the spellcard goes back to when the fight leaves it.
pub fn reset_spell1() -> (state: Spell1State)
    ensures
        state == Spell1State::Inactive,
{
    Spell1State::Inactive
}

/// The state the spellcard starts in.
pub fn enter_spell1() -> (state: Spell1State)
    ensures
        state == Spell1State::Phase1,
{
    Spell1State::Phase1
}

/// A starburst of `rings` rings of `bullet_type` with `lines` bullets
/// each, over the full circle, turned by `offset`.
pub open spec fn ring_burst(bullet_type: BulletType, rings: nat, lines: nat, offset: int) -> StarburstSpec {
    StarburstSpec {
        bullets: Seq::new(rings, |i: int| bullet_type),
        num_lines: lines,
        spread: TAU as int,
        speed_range: (RING_SPEED_LOW as int, RING_SPEED_HIGH as int),
        offset,
    }
}

/// Whether `emitter` is the starburst `burst` aimed along `angle` on the
/// schedule `schedule`.
pub open spec fn is_burst(
    emitter: BulletPatterns,
    burst: StarburstSpec,
    angle: i32,
    schedule: ScheduleState,
) -> bool {
    emitter matches BulletPatterns::StarburstPattern(made, target, timing) && made@ == burst
        && target == Target::Angle(angle) && timing@ == schedule
}

/// The schedule of an emitter that fires once, `delay` nanoseconds after
/// it was placed.
pub open spec fn once_after(delay: nat) -> ScheduleState {
    ScheduleState {
        delay: CountdownState::fresh(delay),
        interval: CountdownState::fresh(0),
        repetitions: 1,
    }
}

/// A list that holds `bullet_type` `count` times.
pub fn repeated(bullet_type: BulletType, count: usize) -> (bullets: Vec<BulletType>)
    ensures
        bullets@ == Seq::new(count as nat, |i: int| bullet_type),
{
    let mut bullets: Vec<BulletType> = Vec::new();
    let mut index: usize = 0;
    while index < count
        invariant
            index <= count,
            bullets@ =~= Seq::new(index as nat, |i: int| bullet_type),
        decreases count - index,
    {
        bullets.push(bullet_type);
        index = index + 1;
    }
    bullets
}

/// A full-circle starburst with the ring speeds of this spellcard.
fn make_ring_burst(bullet_type: BulletType, rings: usize, lines: usize, offset: i32) -> (burst:
    Starburst)
    requires
        rings > 0,
    ensures
        burst@ == ring_burst(bullet_type, rings as nat, lines as nat, offset as int),
{
    let made = Starburst::new(
        repeated(bullet_type, rings),
        lines,
        TAU,
        (RING_SPEED_LOW, RING_SPEED_HIGH),
        offset,
    );
    made.unwrap()
}

/// A phase of one starburst aimed along `angle` that fires at once.
fn aimed_phase(phase: Spell1State, bullet_type: BulletType, angle: i32) -> (setup: PhaseSetup)
    ensures
        setup.emitters@.len() == 1,
        is_burst(setup.emitters@[0], ring_burst(bullet_type, 5, 16, 0), angle, once_after(0)),
        setup.timer.phase == phase,
        setup.timer.countdown@ == CountdownState::fresh(PHASE_TIME as nat),
{
    let mut emitters: Vec<BulletPatterns> = Vec::new();
    emitters.push(
        BulletPatterns::StarburstPattern(
            make_ring_burst(bullet_type, 5, 16, 0),
            Target::Angle(angle),
            ShotSchedule::default(),
        ),
    );
    PhaseSetup { emitters, timer: SpellTimer { phase, countdown: Countdown::new(PHASE_TIME) } }
}

/// Sets up the first phase: Rumia shows her attack once, and one
/// starburst of five rings of sixteen blue-rimmed circles, aimed where
/// the player is now (`aim_at_player`, in microradians), fires at once.
/// The phase lasts [`PHASE_TIME`].
pub fn phase1_setup(aim_at_player: i32, indices: &mut AnimationIndices) -> (setup: PhaseSetup)
    ensures
        setup.emitters@.len() == 1,
        is_burst(
            setup.emitters@[0],
            ring_burst(BulletType::BlueRimmedCircle, 5, 16, 0),
            aim_at_player,
            once_after(0),
        ),
        setup.timer.phase == Spell1State::Phase1,
        setup.timer.countdown@ == CountdownState::fresh(PHASE_TIME as nat),
        *final(indices) == (AnimationIndices {
            first: ATTACK_FIRST_FRAME,
            last: ATTACK_LAST_FRAME,
            next_first: old(indices).first,
            next_last: old(indices).last,
        }),
{
    set_one_off_animation(indices, ATTACK_FIRST_FRAME, ATTACK_LAST_FRAME);
    aimed_phase(Spell1State::Phase1, BulletType::BlueRimmedCircle, aim_at_player)
}

/// Colour of wave `wave` of the second phase.
pub open spec fn wave_colour(wave: int) -> BulletType {
    if wave == 0 {
        BulletType::SmallRedCircle
    } else if wave == 1 {
        BulletType::SmallYellowCircle
    } else if wave == 2 {
        BulletType::SmallGreenCircle
    } else if wave == 3 {
        BulletType::SmallPurpleCircle
    } else {
        BulletType::SmallBlueCircle
    }
}

/// Sets up the second phase: Rumia shows her attack once, and five waves
/// follow one another, [`WAVE_DELAY`] apart. Each wave is one ring of
/// sixty-four small circles of its own colour around the direction
/// straight down, turned by [`WAVE_TURN`] against the wave before. The
/// phase lasts [`PHASE_TIME`].
pub fn phase2_setup(indices: &mut AnimationIndices) -> (setup: PhaseSetup)
    ensures
        setup.emitters@.len() == 5,
        forall|wave: int|
            0 <= wave < 5 ==> is_burst(
                #[trigger] setup.emitters@[wave],
                ring_burst(wave_colour(wave), 1, 64, wave * WAVE_TURN),
                DOWN,
                once_after((wave * WAVE_DELAY) as nat),
            ),
        setup.timer.phase == Spell1State::Phase2,
        setup.timer.countdown@ == CountdownState::fresh(PHASE_TIME as nat),
        *final(indices) == (AnimationIndices {
            first: ATTACK_FIRST_FRAME,
            last: ATTACK_LAST_FRAME,
            next_first: old(indices).first,
            next_last: old(indices).last,
        }),
{
    set_one_off_animation(indices, ATTACK_FIRST_FRAME, ATTACK_LAST_FRAME);
    let colours: [BulletType; 5] = [
        BulletType::SmallRedCircle,
        BulletType::SmallYellowCircle,
        BulletType::SmallGreenCircle,
        BulletType::SmallPurpleCircle,
        BulletType::SmallBlueCircle,
    ];
    let mut emitters: Vec<BulletPatterns> = Vec::new();
    let mut wave: usize = 0;
    while wave < 5
        invariant
            wave <= 5,
            emitters@.len() == wave,
            forall|k: int| 0 <= k < 5 ==> colours[k] == wave_colour(k),
            forall|k: int|
                0 <= k < wave ==> is_burst(
                    #[trigger] emitters@[k],
                    ring_burst(wave_colour(k), 1, 64, k * WAVE_TURN),
                    DOWN,
                    once_after((k * WAVE_DELAY) as nat),
                ),
        decreases 5 - wave,
    {
        let turn: i32 = wave as i32 * WAVE_TURN;
        let delay: u64 = wave as u64 * WAVE_DELAY;
        emitters.push(
            BulletPatterns::StarburstPattern(
                make_ring_burst(colours[wave], 1, 64, turn),
                Target::Angle(DOWN),
                create_shot_schedule(delay, 0, 1),
            ),
        );
        wave = wave + 1;
    }
    PhaseSetup {
        emitters,
        timer: SpellTimer { phase: Spell1State::Phase2, countdown: Countdown::new(PHASE_TIME) },
    }
}

/// Sets up the third phase: as the first, with red-rimmed circles.
pub fn phase3_setup(aim_at_player: i32, indices: &mut AnimationIndices) -> (setup: PhaseSetup)
    ensures
        setup.emitters@.len() == 1,
        is_burst(
            setup.emitters@[0],
            ring_burst(BulletType::RedRimmedCircle, 5, 16, 0),
            aim_at_player,
            once_after(0),
        ),
        setup.timer.phase == Spell1State::Phase3,
        setup.timer.countdown@ == CountdownState::fresh(PHASE_TIME as nat),
        *final(indices) == (AnimationIndices {
            first: ATTACK_FIRST_FRAME,
            last: ATTACK_LAST_FRAME,
            next_first: old(indices).first,
            next_last: old(indices).last,
        }),
{
    set_one_off_animation(indices, ATTACK_FIRST_FRAME, ATTACK_LAST_FRAME);
    aimed_phase(Spell1State::Phase3, BulletType::RedRimmedCircle, aim_at_player)
}

/// Whether `setup` is what entering the phase `phase` sets up when the
/// player is seen under the angle `aim_at_player`: the emitters of that
/// phase (see [`phase1_setup`], [`phase2_setup`] and [`phase3_setup`])
/// and a timer of [`PHASE_TIME`] tagged with the phase.
pub open spec fn sets_up(phase: Spell1State, aim_at_player: i32, setup: PhaseSetup) -> bool {
    &&& setup.timer.phase == phase
    &&& setup.timer.countdown@ == CountdownState::fresh(PHASE_TIME as nat)
    &&& match phase {
        Spell1State::Phase1 => setup.emitters@.len() == 1 && is_burst(
            setup.emitters@[0],
            ring_burst(BulletType::BlueRimmedCircle, 5, 16, 0),
            aim_at_player,
            once_after(0),
        ),
        Spell1State::Phase2 => setup.emitters@.len() == 5 && forall|wave: int|
            0 <= wave < 5 ==> is_burst(
                #[trigger] setup.emitters@[wave],
                ring_burst(wave_colour(wave), 1, 64, wave * WAVE_TURN),
                DOWN,
                once_after((wave * WAVE_DELAY) as nat),
            ),
        Spell1State::Phase3 => setup.emitters@.len() == 1 && is_burst(
            setup.emitters@[0],
            ring_burst(BulletType::RedRimmedCircle, 5, 16, 0),
            aim_at_player,
            once_after(0),
        ),
        _ => false,
    }
}

/// Whether entering `state` aims at the player, so that the angle to the
/// player has to be known: the first and the third phase do.
pub fn aims_at_player(state: Spell1State) -> (aims: bool)
    ensures
        aims == (state == Spell1State::Phase1 || state == Spell1State::Phase3),
{
    match state {
        Spell1State::Phase1 | Spell1State::Phase3 => true,
        _ => false,
    }
}

/// Sets up the phase `state`, if it is one: Rumia shows her attack once,
/// and the emitters and the timer of the phase are handed out. Entering
/// any other state sets up no phase and leaves the animation alone.
pub fn phase_setup(state: Spell1State, aim_at_player: i32, indices: &mut AnimationIndices) -> (setup:
    Option<PhaseSetup>)
    ensures
        state.is_phase() ==> (setup matches Some(made) && sets_up(state, aim_at_player, made)),
        state.is_phase() ==> *final(indices) == (AnimationIndices {
            first: ATTACK_FIRST_FRAME,
            last: ATTACK_LAST_FRAME,
            next_first: old(indices).first,
            next_last: old(indices).last,
        }),
        !state.is_phase() ==> setup.is_none() && *final(indices) == *old(indices),
{
    match state {
        Spell1State::Phase1 => Some(phase1_setup(aim_at_player, indices)),
        Spell1State::Phase2 => Some(phase2_setup(indices)),
        Spell1State::Phase3 => Some(phase3_setup(aim_at_player, indices)),
        _ => None,
    }
}

/// Lets `delta` nanoseconds of a phase pass. The timer of the phase the
/// spellcard is in is ticked; on the tick that ends it the move to the
/// next phase is asked for, and the timer is to be removed. A timer of
/// another phase, and any timer outside the phases, is left alone.
pub fn phase_countdown(state: Spell1State, timer: &mut SpellTimer, delta: u64) -> (next: Option<
    Spell1State,
>)
    ensures
        final(timer).phase == old(timer).phase,
        state.is_phase() && old(timer).phase == state ==> final(timer).countdown@ == old(
            timer,
        ).countdown@.tick(delta as nat) && next == if final(timer).countdown@.just_finished {
            Some(state.follower())
        } else {
            None
        },
        !(state.is_phase() && old(timer).phase == state) ==> final(timer).countdown@ == old(
            timer,
        ).countdown@ && next.is_none(),
{
    let in_phase: bool = match state {
        Spell1State::Phase1 | Spell1State::Phase2 | Spell1State::Phase3 => true,
        _ => false,
    };
    if in_phase && timer.phase == state {
        timer.countdown.tick(delta);
        if timer.countdown.just_finished() {
            return Some(state.next());
        }
    }
    None
}

/// Sets up a move between phases: the pattern that takes Rumia from
/// `start` to the place of the next phase in [`MOVE_TIME`]. Outside the
/// moves there is nothing to set up.
pub fn move_to_phase_setup(state: Spell1State, start: Point) -> (pattern: Option<MovementPatterns>)
    ensures
        match state.waypoint() {
            Some(destination) => pattern matches Some(MovementPatterns::MoveToPattern(made))
                && made@.destination == destination && is_sqrt(
                distance_squared(start, destination),
                made@.distance,
            ) && made@.duration == MOVE_TIME && made@.elapsed == 0,
            None => pattern.is_none(),
        },
{
    match state {
        Spell1State::MoveToPhase2 => Some(
            create_move_to_pattern(
                start,
                Point { x: SPAWN_CENTER, y: SPAWN_TOP - 100_000 },
                MOVE_TIME,
            ),
        ),
        Spell1State::MoveToPhase3 => Some(
            create_move_to_pattern(
                start,
                Point { x: SPAWN_CENTER - 150_000, y: FRAME_BORDER_TOP - 100_000 },
                MOVE_TIME,
            ),
        ),
        Spell1State::MoveToPhase1 => Some(
            create_move_to_pattern(
                start,
                Point { x: SPAWN_CENTER + 150_000, y: FRAME_BORDER_TOP - 100_000 },
                MOVE_TIME,
            ),
        ),
        _ => None,
    }
}

/// Waits for a move between phases to end: once Rumia's movement pattern
/// is finished, the phase the move leads to is asked for.
pub fn wait_for_move(state: Spell1State, movement: &MovementPatterns) -> (next: Option<Spell1State>)
    ensures
        next == if state.is_move() && movement.finished() {
            Some(state.follower())
        } else {
            None
        },
{
    let in_move: bool = match state {
        Spell1State::MoveToPhase2 | Spell1State::MoveToPhase3 | Spell1State::MoveToPhase1 => true,
        _ => false,
    };
    if in_move && crate::movement_patterns::is_finished(movement) {
        Some(state.next())
    } else {
        None
    }
}

/// The phases and the moves take turns, and the cycle of six states
/// closes: from any active state, six steps lead back to it.
pub proof fn lemma_phases_cycle(state: Spell1State)
    ensures
        state.is_phase() ==> state.follower().is_move(),
        state.is_move() ==> state.follower().is_phase(),
        state.follower().follower().follower().follower().follower().follower() == state,
        state != Spell1State::Inactive ==> state.follower() != Spell1State::Inactive,
{
}

} // verus!
