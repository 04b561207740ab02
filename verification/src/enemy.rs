//! Enemies: their hit points and their death.

use vstd::prelude::*;
use crate::bullet_patterns::single_shot::SingleShot;
use crate::bullet_patterns::{BulletPatterns, Target};
use crate::geometry::Point;
use crate::movement_patterns::straight_line::StraightLine;
use crate::movement_patterns::{
    drifts_left,
    get_lateral_movement,
    in_up_down_bracket,
    is_mirrored,
    is_moving_laterally,
    run_movement_pattern,
    MovementPatterns,
    Step,
};
use crate::shot_schedule::{ScheduleState, ShotSchedule};
use crate::countdown::CountdownState;

verus! {

/// Kind of an enemy: the key to its looks.
#[derive(Clone, Copy, Debug, PartialEq, Eq, Structural)]
pub enum EnemyType {
    BlueFairy,
    BigFairy,
    Rumia,
}

/// An enemy in play.
#[derive(Clone, Copy, Debug, PartialEq, Eq, Structural)]
pub struct Enemy {
    pub enemy_type: EnemyType,
    pub hit_points: i32,
}

/// What brings an enemy into play, once.
#[derive(Debug)]
pub struct EnemySpawner {
    pub name: &'static str,
    pub enemy_type: EnemyType,
    pub hit_points: i32,
    pub starting_position: Point,
    pub movement_pattern: MovementPatterns,
    pub bullet_pattern: BulletPatterns,
}

impl Default for EnemySpawner {
    /// A blue fairy named "Enemy" with five hit points that rests at the
    /// origin and fires one still white arrow at the player at once.
    fn default() -> (spawner: EnemySpawner)
        ensures
            spawner.name == "Enemy",
            spawner.enemy_type == EnemyType::BlueFairy,
            spawner.hit_points == 5,
            spawner.starting_position == (Point { x: 0, y: 0 }),
            spawner.movement_pattern == MovementPatterns::StraightLinePattern(
                StraightLine { angle: 0, speed: 0 },
            ),
            spawner.bullet_pattern matches BulletPatterns::SingleShotPattern(shot, target, schedule)
                && shot == (SingleShot {
                bullet_type: crate::bullet::BulletType::WhiteArrow,
                speed: 0,
            }) && target == Target::Player && schedule@ == (ScheduleState {
                delay: CountdownState::fresh(0),
                interval: CountdownState::fresh(0),
                repetitions: 1,
            }),
    {
        EnemySpawner {
            name: "Enemy",
            enemy_type: EnemyType::BlueFairy,
            hit_points: 5,
            starting_position: Point { x: 0, y: 0 },
            movement_pattern: MovementPatterns::StraightLinePattern(StraightLine::default()),
            bullet_pattern: BulletPatterns::SingleShotPattern(
                SingleShot::default(),
                Target::Player,
                ShotSchedule::default(),
            ),
        }
    }
}

/// An enemy as it comes into play.
#[derive(Debug)]
pub struct SpawnedEnemy {
    pub name: &'static str,
    pub enemy: Enemy,
    pub position: Point,
    pub movement_pattern: MovementPatterns,
    pub bullet_pattern: BulletPatterns,
}

/// Brings an enemy into play. The spawner is used up by it.
pub fn spawn_enemy(spawner: EnemySpawner) -> (spawned: SpawnedEnemy)
    ensures
        spawned.name == spawner.name,
        spawned.enemy == (Enemy {
            enemy_type: spawner.enemy_type,
            hit_points: spawner.hit_points,
        }),
        spawned.position == spawner.starting_position,
        spawned.movement_pattern == spawner.movement_pattern,
        spawned.bullet_pattern == spawner.bullet_pattern,
{
    SpawnedEnemy {
        name: spawner.name,
        enemy: Enemy { enemy_type: spawner.enemy_type, hit_points: spawner.hit_points },
        position: spawner.starting_position,
        movement_pattern: spawner.movement_pattern,
        bullet_pattern: spawner.bullet_pattern,
    }
}

/// How an enemy looks after a move.
#[derive(Clone, Copy, Debug, PartialEq, Eq, Structural)]
pub struct EnemyPose {
    /// Whether the enemy shows its sideways frames.
    pub sideways: bool,
    /// Whether the sprite is mirrored.
    pub flip_x: bool,
}

/// Moves an enemy at `position` for `delta` nanoseconds and picks its
/// looks: the sideways frames while it drifts sideways (see
/// [`is_moving_laterally`]), and a mirrored sprite where it drifts to the
/// left.
pub fn move_enemies(movement_pattern: &mut MovementPatterns, position: Point, delta: u64) -> (moved:
    (Step, EnemyPose))
    ensures
        old(movement_pattern).advances_to(position, delta as nat, *final(movement_pattern)),
        moved.0 == old(movement_pattern).step(position, delta as nat),
        moved.1.sideways == (!in_up_down_bracket(final(movement_pattern).lateral()) && !final(movement_pattern).finished()),
        moved.1.flip_x == drifts_left(final(movement_pattern).lateral()),
{
    let step: Step = run_movement_pattern(movement_pattern, position, delta);
    let lateral_movement: i64 = get_lateral_movement(movement_pattern);
    let sideways: bool = is_moving_laterally(movement_pattern, lateral_movement);
    let flip_x: bool = is_mirrored(lateral_movement);
    (step, EnemyPose { sideways, flip_x })
}

/// Notice that an enemy died, for whoever shows the effects.
#[derive(Clone, Copy, Debug, PartialEq, Eq, Structural)]
pub struct EnemyDeathEvent {
    pub enemy_type: EnemyType,
    pub position: Point,
}

/// Hit points left of `hit_points` after a hit of `damage`, as far as the
/// machine's numbers go.
pub open spec fn after_hit(hit_points: int, damage: int) -> int {
    let left = hit_points - damage;
    if left < i32::MIN {
        i32::MIN as int
    } else if left > i32::MAX {
        i32::MAX as int
    } else {
        left
    }
}

/// Hit points left after the hits `damage`, in order.
pub open spec fn after_hits(hit_points: int, damage: Seq<i32>) -> int
    decreases damage.len(),
{
    if damage.len() == 0 {
        hit_points
    } else {
        after_hit(after_hits(hit_points, damage.drop_last()), damage.last() as int)
    }
}

impl Enemy {
    /// Whether the enemy has no hit points left.
    pub open spec fn dead(self) -> bool {
        self.hit_points <= 0
    }
}

/// Takes the damage of every shot that hit the enemy in this frame off its
/// hit points, in order.
pub fn check_shot_enemy_collision(enemy: &mut Enemy, damage: &Vec<i32>)
    ensures
        final(enemy).enemy_type == old(enemy).enemy_type,
        final(enemy).hit_points == after_hits(old(enemy).hit_points as int, damage@),
{
    let mut index: usize = 0;
    while index < damage.len()
        invariant
            index <= damage.len(),
            enemy.enemy_type == old(enemy).enemy_type,
            enemy.hit_points == after_hits(
                old(enemy).hit_points as int,
                damage@.take(index as int),
            ),
        decreases damage.len() - index,
    {
        let left: i64 = enemy.hit_points as i64 - damage[index] as i64;
        enemy.hit_points = if left < i32::MIN as i64 {
            i32::MIN
        } else if left > i32::MAX as i64 {
            i32::MAX
        } else {
            left as i32
        };
        proof {
            assert(damage@.take(index + 1).drop_last() == damage@.take(index as int));
        }
        index = index + 1;
    }
    proof {
        assert(damage@.take(index as int) == damage@);
    }
}

/// The death notice of an enemy at `position`, if it has no hit points
/// left: then, and only then, the enemy is to be removed.
pub fn check_for_enemy_death(enemy: &Enemy, position: Point) -> (death: Option<EnemyDeathEvent>)
    ensures
        death == if enemy.dead() {
            Some(EnemyDeathEvent { enemy_type: enemy.enemy_type, position })
        } else {
            None
        },
{
    if enemy.hit_points <= 0 {
        Some(EnemyDeathEvent { enemy_type: enemy.enemy_type, position })
    } else {
        None
    }
}

} // verus!
