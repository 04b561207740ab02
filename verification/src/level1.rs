//! The first level: waves of fairies, then Rumia.

use vstd::prelude::*;
use crate::bosses::rumia::RumiaState;
use crate::bullet::BulletType;
use crate::bullet_patterns::single_shot::{single_shot_at_player, SingleShot};
use crate::bullet_patterns::starburst::{Starburst, StarburstSpec};
use crate::bullet_patterns::{BulletPatterns, Target};
use crate::countdown::CountdownState;
use crate::enemy::{EnemySpawner, EnemyType};
use crate::game::{FRAME_BORDER_LEFT, FRAME_BORDER_RIGHT};
use crate::geometry::{lerp, Point, DOWN, HALF_PI, PI};
use crate::movement_patterns::curved_line::CurvedLine;
use crate::movement_patterns::decelerate::{create_decelerate_pattern, Decelerate};
use crate::movement_patterns::straight_line::{create_straight_line_pattern, StraightLine};
use crate::movement_patterns::MovementPatterns;
use crate::shot_schedule::{create_shot_schedule, ScheduleState, ENDLESS};
use crate::spawns::{
    horizontal_line,
    SpawnTimeTracker,
    SpawnTimer,
    SPAWN_CENTER,
    SPAWN_LEFTMOST,
    SPAWN_TOP,
};

verus! {

/// Number of fairies in the level.
pub const FAIRIES: usize = 36;

/// A millisecond, in nanoseconds.
pub const MILLISECOND: u64 = 1_000_000;

/// The direction, thirty degrees below the x axis, at which the fairies
/// that curve to the right end their turn, in microradians.
pub const CURVE_END_RIGHT: i64 = -523_599;

/// The direction, thirty degrees below the negative x axis, at which the
/// fairies that curve to the left end their turn, in microradians.
pub const CURVE_END_LEFT: i64 = -2_617_994;

/// Speed of the turn of the fairies that curve to the right, in
/// microradians per second.
pub const CURVE_RATE_RIGHT: i32 = 400_000;

/// Speed of the turn of the fairies that curve to the left.
pub const CURVE_RATE_LEFT: i32 = -400_000;

/// Where the first level stands.
#[derive(Clone, Copy, Debug, Default, PartialEq, Eq, Structural)]
pub enum FirstLevelState {
    #[default]
    Inactive,
    PreRumia,
    Rumia,
    PostRumia,
}

/// When fairy `index` enters, in nanoseconds from the start of the level.
///
/// Ten fairies fly in on curves, 400 ms apart. Two seconds after the last,
/// four rows of five follow, the fairies of a row 200 ms apart and a
/// second between two rows. Two seconds later three fairies enter on
/// either side at once, each three 400 ms apart.
pub open spec fn spawn_time(index: int) -> nat {
    let ms = if index < 10 {
        (index + 1) * 400
    } else if index < 15 {
        6_000 + (index - 9) * 200
    } else if index < 20 {
        8_000 + (index - 14) * 200
    } else if index < 25 {
        9_000 + (index - 19) * 200
    } else if index < 30 {
        11_000 + (index - 24) * 200
    } else if index < 33 {
        14_000 + (index - 29) * 400
    } else {
        14_000 + (index - 32) * 400
    };
    (ms * MILLISECOND) as nat
}

/// Where fairy `index` enters, along the top: the curving fairies at the
/// left and at the right edge of the playfield; the rows evenly spread
/// over the left half, the right half, and both once more; the last six
/// near the right and near the left edge.
pub open spec fn spawn_position(index: int) -> Point {
    let x = if index < 5 {
        FRAME_BORDER_LEFT as int
    } else if index < 10 {
        FRAME_BORDER_RIGHT as int
    } else if index < 15 {
        lerp(FRAME_BORDER_LEFT as int, SPAWN_CENTER as int, index - 10, 4)
    } else if index < 20 {
        lerp(SPAWN_CENTER as int, FRAME_BORDER_RIGHT as int, index - 15, 4)
    } else if index < 25 {
        lerp(FRAME_BORDER_LEFT as int, SPAWN_CENTER as int, index - 20, 4)
    } else if index < 30 {
        lerp(SPAWN_CENTER as int, FRAME_BORDER_RIGHT as int, index - 25, 4)
    } else if index < 33 {
        FRAME_BORDER_RIGHT - 10_000
    } else {
        SPAWN_LEFTMOST as int
    };
    Point { x: x as i32, y: SPAWN_TOP }
}

/// How fairy `index` moves: the first five curve from downward to the
/// right, the next five to the left; the rows fly down and slow from 400
/// to 20 units per second within two seconds; the last six fly straight
/// down at 100 units per second.
pub open spec fn spawn_movement(index: int) -> MovementPatterns {
    if index < 5 {
        MovementPatterns::CurvedLinePattern(
            CurvedLine {
                speed: 150_000,
                distance_before_curve: 100_000,
                current_angle: DOWN as i64,
                max_angle: CURVE_END_RIGHT,
                rate_of_change: CURVE_RATE_RIGHT,
                starting_position: spawn_position(index),
            },
        )
    } else if index < 10 {
        MovementPatterns::CurvedLinePattern(
            CurvedLine {
                speed: 150_000,
                distance_before_curve: 100_000,
                current_angle: DOWN as i64,
                max_angle: CURVE_END_LEFT,
                rate_of_change: CURVE_RATE_LEFT,
                starting_position: spawn_position(index),
            },
        )
    } else if index < 30 {
        MovementPatterns::DeceleratePattern(
            Decelerate {
                angle: DOWN as i64,
                starting_speed: 400_000,
                final_speed: 20_000,
                duration: (2_000 * MILLISECOND) as u64,
                elapsed: 0,
            },
        )
    } else {
        MovementPatterns::StraightLinePattern(StraightLine { angle: DOWN as i64, speed: 100_000 })
    }
}

/// The starburst of the last six fairies: one ring of six blue-rimmed
/// circles over half a turn, at 200 units per second.
pub open spec fn side_burst() -> StarburstSpec {
    StarburstSpec {
        bullets: seq![BulletType::BlueRimmedCircle],
        num_lines: 6,
        spread: PI as int,
        speed_range: (200_000, 400_000),
        offset: 0,
    }
}

/// Whether `pattern` is what fairy `index` fires: the curving fairies a
/// white arrow at the player every half second, the rows a blue-rimmed
/// circle likewise, both at 200 units per second; the last six the
/// [`side_burst`] every second after half a second, those on the right
/// downward, those on the left upward. None of them ever stops.
pub open spec fn spawn_fires(index: int, pattern: BulletPatterns) -> bool {
    if index < 30 {
        pattern matches BulletPatterns::SingleShotPattern(shot, target, schedule) && shot == (
        SingleShot {
            bullet_type: if index < 10 {
                BulletType::WhiteArrow
            } else {
                BulletType::BlueRimmedCircle
            },
            speed: 200_000,
        }) && target == Target::Player && schedule@ == (ScheduleState {
            delay: CountdownState::fresh(0),
            interval: CountdownState::fresh((500 * MILLISECOND) as nat),
            repetitions: ENDLESS as int,
        })
    } else {
        pattern matches BulletPatterns::StarburstPattern(burst, target, schedule) && burst@
            == side_burst() && target == Target::Angle(
            if index < 33 {
                DOWN
            } else {
                HALF_PI
            },
        ) && schedule@ == (ScheduleState {
            delay: CountdownState::fresh((500 * MILLISECOND) as nat),
            interval: CountdownState::fresh((1_000 * MILLISECOND) as nat),
            repetitions: ENDLESS as int,
        })
    }
}

/// Whether `entry` is the spawner of fairy `index` with its timer: a blue
/// fairy with five hit points that enters at its time and place, and moves
/// and fires as laid down for it.
pub open spec fn is_spawn(index: int, entry: (EnemySpawner, SpawnTimer)) -> bool {
    &&& entry.0.name == "Blue Fairy"
    &&& entry.0.enemy_type == EnemyType::BlueFairy
    &&& entry.0.hit_points == 5
    &&& entry.0.starting_position == spawn_position(index)
    &&& entry.0.movement_pattern == spawn_movement(index)
    &&& spawn_fires(index, entry.0.bullet_pattern)
    &&& entry.1.0@ == CountdownState::fresh(spawn_time(index))
}

fn fairy(
    starting_position: Point,
    movement_pattern: MovementPatterns,
    bullet_pattern: BulletPatterns,
) -> (spawner: EnemySpawner)
    ensures
        spawner.name == "Blue Fairy",
        spawner.enemy_type == EnemyType::BlueFairy,
        spawner.hit_points == 5,
        spawner.starting_position == starting_position,
        spawner.movement_pattern == movement_pattern,
        spawner.bullet_pattern == bullet_pattern,
{
    EnemySpawner {
        name: "Blue Fairy",
        enemy_type: EnemyType::BlueFairy,
        hit_points: 5,
        starting_position,
        movement_pattern,
        bullet_pattern,
    }
}

fn make_side_burst(angle: i32) -> (pattern: BulletPatterns)
    ensures
        pattern matches BulletPatterns::StarburstPattern(burst, target, schedule) && burst@
            == side_burst() && target == Target::Angle(angle) && schedule@ == (ScheduleState {
            delay: CountdownState::fresh((500 * MILLISECOND) as nat),
            interval: CountdownState::fresh((1_000 * MILLISECOND) as nat),
            repetitions: ENDLESS as int,
        }),
{
    let mut bullets: Vec<BulletType> = Vec::new();
    bullets.push(BulletType::BlueRimmedCircle);
    assert(bullets@ =~= seq![BulletType::BlueRimmedCircle]);
    let burst = Starburst::new(bullets, 6, PI, (200_000, 400_000), 0);
    BulletPatterns::StarburstPattern(
        burst.unwrap(),
        Target::Angle(angle),
        create_shot_schedule(500 * MILLISECOND, 1_000 * MILLISECOND, ENDLESS),
    )
}

/// Adds the five curving fairies that enter at `x`, the first of them
/// being fairy `first` of the level.
fn add_curving(
    spawns: &mut Vec<(EnemySpawner, SpawnTimer)>,
    spawn_delay: &mut SpawnTimeTracker,
    first: usize,
)
    requires
        first == 0 || first == 5,
        old(spawns)@.len() == first,
        old(spawn_delay).elapsed == first * 400 * MILLISECOND,
        forall|i: int| 0 <= i < first ==> is_spawn(i, #[trigger] old(spawns)@[i]),
    ensures
        final(spawns)@.len() == first + 5,
        final(spawn_delay).elapsed == (first + 5) * 400 * MILLISECOND,
        forall|i: int| 0 <= i < first + 5 ==> is_spawn(i, #[trigger] final(spawns)@[i]),
{
    let mut count: usize = 0;
    while count < 5
        invariant
            first == 0 || first == 5,
            count <= 5,
            spawns@.len() == first + count,
            spawn_delay.elapsed == (first + count) * 400 * MILLISECOND,
            forall|i: int| 0 <= i < first + count ==> is_spawn(i, #[trigger] spawns@[i]),
        decreases 5 - count,
    {
        let starting_position = Point {
            x: if first == 0 {
                FRAME_BORDER_LEFT
            } else {
                FRAME_BORDER_RIGHT
            },
            y: SPAWN_TOP,
        };
        let movement = MovementPatterns::CurvedLinePattern(
            CurvedLine {
                speed: 150_000,
                distance_before_curve: 100_000,
                current_angle: DOWN as i64,
                max_angle: if first == 0 {
                    CURVE_END_RIGHT
                } else {
                    CURVE_END_LEFT
                },
                rate_of_change: if first == 0 {
                    CURVE_RATE_RIGHT
                } else {
                    CURVE_RATE_LEFT
                },
                starting_position,
            },
        );
        let timer = spawn_delay.timer_with_increment(400 * MILLISECOND);
        let entry = (
            fairy(
                starting_position,
                movement,
                single_shot_at_player(
                    BulletType::WhiteArrow,
                    200_000,
                    500 * MILLISECOND,
                    ENDLESS,
                ),
            ),
            timer,
        );
        assert(is_spawn(first + count, entry));
        spawns.push(entry);
        count = count + 1;
    }
}

/// Adds a row of five fairies between `leftmost` and `rightmost`, the
/// first of them being fairy `first` of the level.
fn add_row(
    spawns: &mut Vec<(EnemySpawner, SpawnTimer)>,
    spawn_delay: &mut SpawnTimeTracker,
    first: usize,
    left_half: bool,
)
    requires
        first == 10 && left_half || first == 15 && !left_half || first == 20 && left_half || first
            == 25 && !left_half,
        old(spawns)@.len() == first,
        spawn_time(first as int) == old(spawn_delay).elapsed + 200 * MILLISECOND,
        forall|i: int| 0 <= i < first ==> is_spawn(i, #[trigger] old(spawns)@[i]),
    ensures
        final(spawns)@.len() == first + 5,
        final(spawn_delay).elapsed == old(spawn_delay).elapsed + 1_000 * MILLISECOND,
        forall|i: int| 0 <= i < first + 5 ==> is_spawn(i, #[trigger] final(spawns)@[i]),
{
    let row: Vec<Point> = if left_half {
        horizontal_line(FRAME_BORDER_LEFT, SPAWN_CENTER, SPAWN_TOP, 5)
    } else {
        horizontal_line(SPAWN_CENTER, FRAME_BORDER_RIGHT, SPAWN_TOP, 5)
    };
    let mut count: usize = 0;
    while count < 5
        invariant
            first == 10 && left_half || first == 15 && !left_half || first == 20 && left_half
                || first == 25 && !left_half,
            count <= 5,
            row@.len() == 5,
            forall|k: int| 0 <= k < 5 ==> (#[trigger] row@[k]) == spawn_position(first + k),
            spawns@.len() == first + count,
            spawn_time(first as int) == old(spawn_delay).elapsed + 200 * MILLISECOND,
            spawn_delay.elapsed == old(spawn_delay).elapsed + count * 200 * MILLISECOND,
            forall|i: int| 0 <= i < first + count ==> is_spawn(i, #[trigger] spawns@[i]),
        decreases 5 - count,
    {
        let starting_position: Point = row[count];
        let timer = spawn_delay.timer_with_increment(200 * MILLISECOND);
        let entry = (
            fairy(
                starting_position,
                create_decelerate_pattern(DOWN as i64, 400_000, 20_000, 2_000 * MILLISECOND),
                single_shot_at_player(
                    BulletType::BlueRimmedCircle,
                    200_000,
                    500 * MILLISECOND,
                    ENDLESS,
                ),
            ),
            timer,
        );
        assert(is_spawn(first + count, entry));
        spawns.push(entry);
        count = count + 1;
    }
}

/// Adds three fairies that fire starbursts from one side, the first of
/// them being fairy `first` of the level.
fn add_side(
    spawns: &mut Vec<(EnemySpawner, SpawnTimer)>,
    spawn_delay: &mut SpawnTimeTracker,
    first: usize,
)
    requires
        first == 30 || first == 33,
        old(spawns)@.len() == first,
        old(spawn_delay).elapsed == 14_000 * MILLISECOND,
        forall|i: int| 0 <= i < first ==> is_spawn(i, #[trigger] old(spawns)@[i]),
    ensures
        final(spawns)@.len() == first + 3,
        forall|i: int| 0 <= i < first + 3 ==> is_spawn(i, #[trigger] final(spawns)@[i]),
{
    let mut count: usize = 0;
    while count < 3
        invariant
            first == 30 || first == 33,
            count <= 3,
            spawns@.len() == first + count,
            spawn_delay.elapsed == 14_000 * MILLISECOND + count * 400 * MILLISECOND,
            forall|i: int| 0 <= i < first + count ==> is_spawn(i, #[trigger] spawns@[i]),
        decreases 3 - count,
    {
        let starting_position = Point {
            x: if first == 30 {
                FRAME_BORDER_RIGHT - 10_000
            } else {
                SPAWN_LEFTMOST
            },
            y: SPAWN_TOP,
        };
        let timer = spawn_delay.timer_with_increment(400 * MILLISECOND);
        let entry = (
            fairy(
                starting_position,
                create_straight_line_pattern(DOWN as i64, 100_000),
                make_side_burst(
                    if first == 30 {
                        DOWN
                    } else {
                        HALF_PI
                    },
                ),
            ),
            timer,
        );
        assert(is_spawn(first + count, entry));
        spawns.push(entry);
        count = count + 1;
    }
}

/// Lays out the level: the spawners of its thirty-six fairies, each with
/// the timer that brings it into play, wave after wave (see
/// [`spawn_time`], [`spawn_position`], [`spawn_movement`] and
/// [`spawn_fires`]); and the state the level is in from then on.
pub fn level1_setup() -> (laid_out: (Vec<(EnemySpawner, SpawnTimer)>, FirstLevelState))
    ensures
        laid_out.0@.len() == FAIRIES,
        forall|i: int| 0 <= i < FAIRIES ==> is_spawn(i, #[trigger] laid_out.0@[i]),
        laid_out.1 == FirstLevelState::PreRumia,
{
    let mut spawns: Vec<(EnemySpawner, SpawnTimer)> = Vec::new();
    let mut spawn_delay = SpawnTimeTracker { elapsed: 0 };
    add_curving(&mut spawns, &mut spawn_delay, 0);
    add_curving(&mut spawns, &mut spawn_delay, 5);
    spawn_delay.increment(2_000 * MILLISECOND);
    add_row(&mut spawns, &mut spawn_delay, 10, true);
    spawn_delay.increment(1_000 * MILLISECOND);
    add_row(&mut spawns, &mut spawn_delay, 15, false);
    add_row(&mut spawns, &mut spawn_delay, 20, true);
    spawn_delay.increment(1_000 * MILLISECOND);
    add_row(&mut spawns, &mut spawn_delay, 25, false);
    spawn_delay.increment(2_000 * MILLISECOND);
    let mut spawn_delay_2 = spawn_delay;
    add_side(&mut spawns, &mut spawn_delay, 30);
    add_side(&mut spawns, &mut spawn_delay_2, 33);
    (spawns, FirstLevelState::PreRumia)
}

/// Decides when Rumia enters: while the game is being played and the
/// level is in the part before her, as soon as no spawner and no enemy
/// is left.
pub fn listen_for_rumia_entrance(
    playing: bool,
    first_level_state: FirstLevelState,
    spawners_left: usize,
    enemies_left: usize,
) -> (next: Option<FirstLevelState>)
    ensures
        next == if playing && first_level_state == FirstLevelState::PreRumia && spawners_left == 0
            && enemies_left == 0 {
            Some(FirstLevelState::Rumia)
        } else {
            None
        },
{
    let before_rumia: bool = match first_level_state {
        FirstLevelState::PreRumia => true,
        _ => false,
    };
    if playing && before_rumia && spawners_left == 0 && enemies_left == 0 {
        Some(FirstLevelState::Rumia)
    } else {
        None
    }
}

/// What an inactive level leaves behind: an inactive fight.
pub fn first_level_cleanup() -> (state: RumiaState)
    ensures
        state == RumiaState::Inactive,
{
    RumiaState::Inactive
}

} // verus!
