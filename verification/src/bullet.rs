//! Bullets and the requests that bring them into play.

use vstd::prelude::*;
use crate::game::{in_playfield, is_in_playfield};
use crate::geometry::Point;
use crate::movement_patterns::{run_movement_pattern, DontMove, MovementPatterns, Step};

verus! {

/// Kind of a bullet: the key to its looks and its hit circle.
#[derive(Clone, Copy, Debug, PartialEq, Eq, Structural)]
pub enum BulletType {
    WhiteArrow,
    BlueRimmedCircle,
    RedRimmedCircle,
    SmallRedCircle,
    SmallYellowCircle,
    SmallGreenCircle,
    SmallPurpleCircle,
    SmallBlueCircle,
}

/// A bullet in play.
#[derive(Clone, Copy, Debug, PartialEq, Eq, Structural)]
pub struct Bullet {
    pub bullet_type: BulletType,
}

/// What the rules need to know of a kind of bullet.
#[derive(Clone, Copy, Debug, PartialEq, Eq, Structural)]
pub struct BulletProps {
    /// Radius of the circle in which the bullet hits, in thousandths of a
    /// unit.
    pub hit_circle_radius: i32,
}

/// What brings one bullet into play.
#[derive(Clone, Copy, Debug, PartialEq, Eq)]
pub struct BulletSpawner {
    pub bullet_type: BulletType,
    pub position: Point,
    pub movement_pattern: MovementPatterns,
}

/// Request to bring one bullet into play.
#[derive(Clone, Copy, Debug, PartialEq, Eq)]
pub struct BulletSpawnEvent {
    pub bullet_type: BulletType,
    /// Where the bullet starts.
    pub position: Point,
    /// How the bullet travels from there.
    pub movement_pattern: MovementPatterns,
}

impl Default for BulletSpawnEvent {
    /// A white arrow resting at the origin.
    fn default() -> (event: BulletSpawnEvent)
        ensures
            event == (BulletSpawnEvent {
                bullet_type: BulletType::WhiteArrow,
                position: Point { x: 0, y: 0 },
                movement_pattern: MovementPatterns::DontMovePattern(DontMove),
            }),
    {
        BulletSpawnEvent {
            bullet_type: BulletType::WhiteArrow,
            position: Point { x: 0, y: 0 },
            movement_pattern: MovementPatterns::DontMovePattern(DontMove),
        }
    }
}

/// The spawner that carries out a request.
pub open spec fn spawner_of(event: BulletSpawnEvent) -> BulletSpawner {
    BulletSpawner {
        bullet_type: event.bullet_type,
        position: event.position,
        movement_pattern: event.movement_pattern,
    }
}

/// The spawners of the requests that start on the playfield, in the order
/// of the requests.
pub open spec fn spawned(events: Seq<BulletSpawnEvent>) -> Seq<BulletSpawner>
    decreases events.len(),
{
    if events.len() == 0 {
        Seq::empty()
    } else if in_playfield(events.last().position) {
        spawned(events.drop_last()).push(spawner_of(events.last()))
    } else {
        spawned(events.drop_last())
    }
}

/// Turns the requests of one frame into spawners: a bullet comes into
/// play only if it starts on the playfield.
pub fn read_bullet_spawn_events(events: &Vec<BulletSpawnEvent>) -> (spawners: Vec<BulletSpawner>)
    ensures
        spawners@ == spawned(events@),
{
    let mut spawners: Vec<BulletSpawner> = Vec::new();
    let mut index: usize = 0;
    while index < events.len()
        invariant
            index <= events.len(),
            spawners@ == spawned(events@.take(index as int)),
        decreases events.len() - index,
    {
        let event: BulletSpawnEvent = events[index];
        proof {
            assert(events@.take(index + 1).drop_last() == events@.take(index as int));
        }
        if is_in_playfield(event.position) {
            spawners.push(
                BulletSpawner {
                    bullet_type: event.bullet_type,
                    position: event.position,
                    movement_pattern: event.movement_pattern,
                },
            );
        }
        index = index + 1;
    }
    proof {
        assert(events@.take(index as int) == events@);
    }
    spawners
}

/// The properties of a kind of bullet: every kind hits within one unit.
pub fn props_for_bullet_type(bullet_type: &BulletType) -> (props: BulletProps)
    ensures
        props == (BulletProps { hit_circle_radius: 1000 }),
{
    BulletProps { hit_circle_radius: 1000 }
}

/// Moves a bullet at `position` for `delta` nanoseconds along its
/// pattern. Bullets face the way they travel.
pub fn move_bullets(movement_pattern: &mut MovementPatterns, position: Point, delta: u64) -> (step:
    Step)
    ensures
        old(movement_pattern).advances_to(position, delta as nat, *final(movement_pattern)),
        step == old(movement_pattern).step(position, delta as nat),
{
    run_movement_pattern(movement_pattern, position, delta)
}

} // verus!
