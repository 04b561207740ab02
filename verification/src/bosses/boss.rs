//! The boss entity: how it comes into play and how it looks while it moves.

use vstd::prelude::*;
use crate::enemy::EnemyType;
use crate::geometry::Point;
use crate::movement_patterns::{
    drifts_left,
    get_lateral_movement,
    in_up_down_bracket,
    is_mirrored,
    is_moving_laterally,
    run_movement_pattern,
    DontMove,
    MovementPatterns,
    Step,
};
use crate::sprites::{set_next_animation, AnimationIndices};

verus! {

/// Marks the boss entity.
#[derive(Clone, Copy, Debug, Default, PartialEq, Eq, Structural)]
pub struct Boss;

/// Frame of the boss sheet that shows the boss flying sideways.
pub const SIDEWAYS_FRAME: usize = 5;

/// Frame of the boss sheet that shows the boss from the front.
pub const FRONT_FRAME: usize = 4;

/// What brings a boss into play, once.
#[derive(Clone, Copy, Debug, PartialEq, Eq)]
pub struct BossSpawner {
    pub name: &'static str,
    pub enemy_type: EnemyType,
    pub starting_position: Point,
    pub movement_pattern: MovementPatterns,
}

impl Default for BossSpawner {
    /// A boss named "Boss" that rests at the origin.
    fn default() -> (spawner: BossSpawner)
        ensures
            spawner.name == "Boss",
            spawner.enemy_type == EnemyType::Rumia,
            spawner.starting_position == (Point { x: 0, y: 0 }),
            spawner.movement_pattern == MovementPatterns::DontMovePattern(DontMove),
    {
        BossSpawner {
            name: "Boss",
            enemy_type: EnemyType::Rumia,
            starting_position: Point { x: 0, y: 0 },
            movement_pattern: MovementPatterns::DontMovePattern(DontMove),
        }
    }
}

/// Moves a boss at `position` for `delta` nanoseconds and picks its looks.
///
/// The pattern advances by one tick and gives the step to take. After the
/// sprite's animation, the sideways frame follows while the boss drifts
/// sideways (see [`is_moving_laterally`]), the front frame otherwise. The
/// flag returned with the step says whether the sprite is mirrored: it is
/// where the boss drifts to the left.
pub fn update_bosses(
    movement_pattern: &mut MovementPatterns,
    position: Point,
    delta: u64,
    indices: &mut AnimationIndices,
) -> (moved: (Step, bool))
    ensures
        old(movement_pattern).advances_to(position, delta as nat, *final(movement_pattern)),
        moved.0 == old(movement_pattern).step(position, delta as nat),
        moved.1 == drifts_left(final(movement_pattern).lateral()),
        *final(indices) == (AnimationIndices {
            next_first: boss_frame(*final(movement_pattern)) as usize,
            next_last: boss_frame(*final(movement_pattern)) as usize,
            ..*old(indices)
        }),
{
    let step: Step = run_movement_pattern(movement_pattern, position, delta);
    let lateral_movement: i64 = get_lateral_movement(movement_pattern);
    if is_moving_laterally(movement_pattern, lateral_movement) {
        set_next_animation(indices, SIDEWAYS_FRAME, SIDEWAYS_FRAME);
    } else {
        set_next_animation(indices, FRONT_FRAME, FRONT_FRAME);
    }
    (step, is_mirrored(lateral_movement))
}

/// The frame a boss with this pattern shows once its animation is over.
pub open spec fn boss_frame(movement_pattern: MovementPatterns) -> int {
    if !in_up_down_bracket(movement_pattern.lateral()) && !movement_pattern.finished() {
        SIDEWAYS_FRAME as int
    } else {
        FRONT_FRAME as int
    }
}

} // verus!
