//! Movement patterns: how an entity travels from tick to tick.
//!
//! A pattern works out how far an entity travels in a tick and in which
//! direction; turning that into a displacement is left to the caller.

pub mod curved_line;
pub mod decelerate;
pub mod move_to;
pub mod sine_wave;
pub mod straight_line;

use vstd::prelude::*;
use crate::game::{UP_DOWN_BRACKET_END, UP_DOWN_BRACKET_START};
use crate::geometry::{Point, HALF_PI};
use crate::movement_patterns::curved_line::CurvedLine;
use crate::movement_patterns::decelerate::Decelerate;
use crate::movement_patterns::move_to::MoveTo;
use crate::movement_patterns::sine_wave::{wave_phase, SineWave};
use crate::movement_patterns::straight_line::StraightLine;

verus! {

/// What a pattern asks of its entity for one tick.
#[derive(Clone, Copy, Debug, PartialEq, Eq, Structural)]
pub enum Step {
    /// Stay.
    Rest,
    /// Travel `distance` thousandths of a unit along `angle` (microradians).
    Along { distance: i64, angle: i64 },
    /// Travel `distance` thousandths of a unit toward `destination`.
    Toward { distance: i64, destination: Point },
    /// Go to height `y` on a sine wave: the place is `x_origin` plus
    /// `amplitude` times the sine of `phase` (microradians) across, and `y`
    /// up.
    Wave { x_origin: i32, amplitude: i32, phase: i64, y: i64 },
}

impl Step {
    /// Whether the step leaves an entity at `position` where it is: no
    /// distance to travel, or the height it already has on its wave.
    pub open spec fn stays(self, position: Point) -> bool {
        match self {
            Step::Rest => true,
            Step::Along { distance, .. } => distance == 0,
            Step::Toward { distance, .. } => distance == 0,
            Step::Wave { y, .. } => y == position.y,
        }
    }
}

/// The pattern of an entity that stays where it is.
#[derive(Clone, Copy, Debug, Default, PartialEq, Eq, Structural)]
pub struct DontMove;

impl DontMove {
    /// Staying does not drift sideways.
    pub fn lateral_movement(&self) -> (angle: i64)
        ensures
            angle == 0,
    {
        0
    }

    /// Staying is finished from the start.
    pub fn is_finished(&self) -> (finished: bool)
        ensures
            finished,
    {
        true
    }
}

/// The closed set of movement patterns.
#[derive(Clone, Copy, Debug, PartialEq, Eq)]
pub enum MovementPatterns {
    DontMovePattern(DontMove),
    StraightLinePattern(StraightLine),
    DeceleratePattern(Decelerate),
    SineWavePattern(SineWave),
    CurvedLinePattern(CurvedLine),
    MoveToPattern(MoveTo),
}

impl MovementPatterns {
    /// Whether the pattern has run its course.
    pub open spec fn finished(self) -> bool {
        match self {
            MovementPatterns::DontMovePattern(_) => true,
            MovementPatterns::StraightLinePattern(_) => false,
            MovementPatterns::DeceleratePattern(pattern) => pattern.finished(),
            MovementPatterns::SineWavePattern(_) => false,
            MovementPatterns::CurvedLinePattern(_) => false,
            MovementPatterns::MoveToPattern(pattern) => pattern@.finished(),
        }
    }

    /// The direction the entity drifts in, in microradians.
    pub open spec fn lateral(self) -> int {
        match self {
            MovementPatterns::DontMovePattern(_) => 0,
            MovementPatterns::StraightLinePattern(pattern) => pattern.angle as int,
            MovementPatterns::DeceleratePattern(pattern) => if pattern.speed() == 0 {
                HALF_PI as int
            } else {
                pattern.angle as int
            },
            MovementPatterns::SineWavePattern(_) => 0,
            MovementPatterns::CurvedLinePattern(pattern) => pattern.current_angle as int,
            MovementPatterns::MoveToPattern(_) => 0,
        }
    }

    /// The step of a tick of `delta` nanoseconds for an entity at
    /// `position`.
    pub open spec fn step(self, position: Point, delta: nat) -> Step {
        match self {
            MovementPatterns::DontMovePattern(_) => Step::Rest,
            MovementPatterns::StraightLinePattern(pattern) => pattern.step(delta),
            MovementPatterns::DeceleratePattern(pattern) => pattern.step(delta),
            MovementPatterns::SineWavePattern(pattern) => pattern.step(position, delta),
            MovementPatterns::CurvedLinePattern(pattern) => pattern.step(position, delta),
            MovementPatterns::MoveToPattern(pattern) => pattern@.step(delta),
        }
    }

    /// Whether `next` is this pattern after a tick of `delta` nanoseconds
    /// for an entity at `position`.
    pub open spec fn advances_to(self, position: Point, delta: nat, next: MovementPatterns) -> bool {
        match (self, next) {
            (
                MovementPatterns::DontMovePattern(_),
                MovementPatterns::DontMovePattern(_),
            ) => true,
            (
                MovementPatterns::StraightLinePattern(before),
                MovementPatterns::StraightLinePattern(after),
            ) => after == before,
            (
                MovementPatterns::DeceleratePattern(before),
                MovementPatterns::DeceleratePattern(after),
            ) => after == before.advanced(delta),
            (
                MovementPatterns::SineWavePattern(before),
                MovementPatterns::SineWavePattern(after),
            ) => after == before,
            (
                MovementPatterns::CurvedLinePattern(before),
                MovementPatterns::CurvedLinePattern(after),
            ) => after == before.advanced(position, delta),
            (
                MovementPatterns::MoveToPattern(before),
                MovementPatterns::MoveToPattern(after),
            ) => after@ == before@.advanced(delta),
            _ => false,
        }
    }
}

/// Whether a drift of `lateral_movement` microradians lies in the bracket
/// of directions that count as up or down: at least five and less than
/// seven twelfths of half a turn to either side.
pub open spec fn in_up_down_bracket(lateral_movement: int) -> bool {
    let size = if lateral_movement < 0 {
        -lateral_movement
    } else {
        lateral_movement
    };
    UP_DOWN_BRACKET_START <= size < UP_DOWN_BRACKET_END
}

/// Whether a drift of `lateral_movement` microradians points to the left
/// of the bracket of up and down: an entity that drifts so shows its
/// sprite mirrored.
pub open spec fn drifts_left(lateral_movement: int) -> bool {
    lateral_movement >= UP_DOWN_BRACKET_END || lateral_movement <= -UP_DOWN_BRACKET_END
}

/// Whether an entity with this drift shows its sprite mirrored.
pub fn is_mirrored(lateral_movement: i64) -> (mirrored: bool)
    ensures
        mirrored == drifts_left(lateral_movement as int),
{
    lateral_movement >= UP_DOWN_BRACKET_END as i64 || lateral_movement <= -(
    UP_DOWN_BRACKET_END as i64)
}

/// Moves an entity at `position` for `delta` nanoseconds along its
/// pattern: the pattern advances by one tick, and the result is the step
/// the entity has to take.
pub fn run_movement_pattern(movement_pattern: &mut MovementPatterns, position: Point, delta: u64) -> (step:
    Step)
    ensures
        old(movement_pattern).advances_to(position, delta as nat, *final(movement_pattern)),
        step == old(movement_pattern).step(position, delta as nat),
{
    match movement_pattern {
        MovementPatterns::StraightLinePattern(straight_line) => straight_line.do_move(delta),
        MovementPatterns::DeceleratePattern(decelerate) => decelerate.do_move(delta),
        MovementPatterns::SineWavePattern(sine_wave) => sine_wave.do_move(position, delta),
        MovementPatterns::CurvedLinePattern(curved_line) => curved_line.do_move(position, delta),
        MovementPatterns::MoveToPattern(move_to) => move_to.do_move(delta),
        MovementPatterns::DontMovePattern(_) => Step::Rest,
    }
}

/// The direction the entity drifts in, in microradians.
pub fn get_lateral_movement(movement_pattern: &MovementPatterns) -> (angle: i64)
    ensures
        angle == movement_pattern.lateral(),
{
    match movement_pattern {
        MovementPatterns::DontMovePattern(pattern) => pattern.lateral_movement(),
        MovementPatterns::StraightLinePattern(pattern) => pattern.lateral_movement(),
        MovementPatterns::DeceleratePattern(pattern) => pattern.lateral_movement(),
        MovementPatterns::SineWavePattern(pattern) => pattern.lateral_movement(),
        MovementPatterns::CurvedLinePattern(pattern) => pattern.lateral_movement(),
        MovementPatterns::MoveToPattern(pattern) => pattern.lateral_movement(),
    }
}

/// Whether the pattern has run its course.
pub fn is_finished(movement_pattern: &MovementPatterns) -> (finished: bool)
    ensures
        finished == movement_pattern.finished(),
{
    match movement_pattern {
        MovementPatterns::DontMovePattern(pattern) => pattern.is_finished(),
        MovementPatterns::StraightLinePattern(pattern) => pattern.is_finished(),
        MovementPatterns::DeceleratePattern(pattern) => pattern.is_finished(),
        MovementPatterns::SineWavePattern(pattern) => pattern.is_finished(),
        MovementPatterns::CurvedLinePattern(pattern) => pattern.is_finished(),
        MovementPatterns::MoveToPattern(pattern) => pattern.is_finished(),
    }
}

/// The angle a sprite drawn facing up has to be turned by to face along
/// `angle`: a quarter turn less.
pub fn face_travel_direction(angle: i64) -> (facing: i64)
    ensures
        facing == clamped_facing(angle as int),
{
    if angle < i64::MIN + HALF_PI as i64 {
        i64::MIN
    } else {
        angle - HALF_PI as i64
    }
}

/// The angle a sprite that faces its way of travel is turned by after
/// `step`, where the step names a direction. After a step toward a
/// destination or along a wave the displacement itself gives the
/// direction, and after a rest nothing changes.
pub fn facing_of(step: &Step) -> (facing: Option<i64>)
    ensures
        facing == match *step {
            Step::Along { angle, .. } => Some(clamped_facing(angle as int) as i64),
            _ => None,
        },
{
    match step {
        Step::Along { angle, .. } => Some(face_travel_direction(*angle)),
        _ => None,
    }
}

/// A quarter turn less than `angle`, as far as the machine's numbers go.
pub open spec fn clamped_facing(angle: int) -> int {
    if angle - HALF_PI < i64::MIN {
        i64::MIN as int
    } else {
        angle - HALF_PI
    }
}

/// Whether an entity shows its sideways look: its pattern still runs and
/// its drift lies outside the bracket of up and down.
pub fn is_moving_laterally(movement_pattern: &MovementPatterns, lateral_movement: i64) -> (sideways:
    bool)
    ensures
        sideways == (!in_up_down_bracket(lateral_movement as int) && !movement_pattern.finished()),
{
    let size: i128 = if lateral_movement < 0 {
        -(lateral_movement as i128)
    } else {
        lateral_movement as i128
    };
    let in_bracket: bool = UP_DOWN_BRACKET_START as i128 <= size && size
        < UP_DOWN_BRACKET_END as i128;
    !in_bracket && !is_finished(movement_pattern)
}

/// A tick of no time moves nothing and finishes nothing: whatever the
/// pattern, the step leaves the entity where it is, and the pattern is
/// finished after the tick exactly if it was before. On a sine wave the
/// step names the entity's own height and the phase of the wave at that
/// height, so that an entity on its wave stays in place.
pub proof fn lemma_zero_tick_changes_nothing(
    before: MovementPatterns,
    position: Point,
    after: MovementPatterns,
)
    requires
        before.advances_to(position, 0, after),
        before matches MovementPatterns::MoveToPattern(pattern) ==> pattern@.wf(),
    ensures
        before.step(position, 0).stays(position),
        after.finished() == before.finished(),
        before matches MovementPatterns::SineWavePattern(wave) ==> before.step(position, 0) == (
        Step::Wave {
            x_origin: wave.starting_position.x,
            amplitude: wave.amplitude,
            phase: wave_phase(
                position.y - wave.starting_position.y,
                wave.wavelength as int,
            ) as i64,
            y: position.y as i64,
        }),
{
    match before {
        MovementPatterns::MoveToPattern(pattern) => {
            assert(pattern@.advanced(0) == pattern@);
        },
        MovementPatterns::DeceleratePattern(pattern) => {
            assert(pattern.advanced(0) == pattern);
            assert(pattern.starting_speed * 0 == 0);
        },
        _ => {},
    }
    assert(forall|rate: int| #[trigger] crate::geometry::over_time(rate, 0) == 0) by {
        assert forall|rate: int| #[trigger] crate::geometry::over_time(rate, 0) == 0 by {
            assert(rate * 0 == 0);
        }
    }
}

} // verus!
