use danmaku::bullet::{
    move_bullets, props_for_bullet_type, read_bullet_spawn_events, BulletSpawnEvent,
    BulletSpawner, BulletType,
};
use danmaku::bullet_patterns::{fire_bullet_pattern, BulletPatterns, Target};
use danmaku::countdown::Countdown;
use danmaku::enemy::{
    check_for_enemy_death, check_shot_enemy_collision, move_enemies, spawn_enemy, Enemy,
    EnemyDeathEvent, EnemyPose, EnemySpawner, EnemyType,
};
use danmaku::game::{FRAME_BORDER_BOTTOM, FRAME_BORDER_LEFT, FRAME_BORDER_RIGHT, FRAME_BORDER_TOP};
use danmaku::geometry::{Point, HALF_PI};
use danmaku::level1::{level1_setup, FirstLevelState, FAIRIES};
use danmaku::movement_patterns::straight_line::{create_straight_line_pattern, StraightLine};
use danmaku::movement_patterns::{DontMove, MovementPatterns, Step};
use danmaku::player::{
    check_bullet_player_collision, fire_shot, is_vulnerable, move_player, move_shot,
    respawn_player, spawn_player, switch_player_sprite, LifeEvent, Player, PlayerLife,
    PlayerShot, Steering, INVINCIBILITY_TIME, RESPAWN_TIME,
};
use danmaku::player_stats::{DeathOutcome, PlayerStats, STARTING_LIFE_COUNT};
use danmaku::sprites::{
    animate_sprite, set_animation_frames, set_next_animation, set_one_off_animation,
    AnimationIndices,
};

const SECOND: u64 = 1_000_000_000;

#[test]
fn bullet_requests_outside_the_playfield_are_dropped() {
    let line = create_straight_line_pattern(0, 1);
    let inside = BulletSpawnEvent {
        bullet_type: BulletType::SmallRedCircle,
        position: Point { x: 0, y: 0 },
        movement_pattern: line,
    };
    let outside = BulletSpawnEvent {
        bullet_type: BulletType::SmallBlueCircle,
        position: Point { x: FRAME_BORDER_RIGHT + 1, y: 0 },
        movement_pattern: line,
    };
    let edge = BulletSpawnEvent {
        bullet_type: BulletType::WhiteArrow,
        position: Point { x: FRAME_BORDER_LEFT, y: FRAME_BORDER_BOTTOM },
        movement_pattern: MovementPatterns::DontMovePattern(DontMove),
    };
    let spawners = read_bullet_spawn_events(&vec![inside, outside, edge, outside, inside]);
    assert_eq!(
        spawners,
        vec![
            BulletSpawner {
                bullet_type: BulletType::SmallRedCircle,
                position: Point { x: 0, y: 0 },
                movement_pattern: line,
            },
            BulletSpawner {
                bullet_type: BulletType::WhiteArrow,
                position: Point { x: FRAME_BORDER_LEFT, y: FRAME_BORDER_BOTTOM },
                movement_pattern: MovementPatterns::DontMovePattern(DontMove),
            },
            BulletSpawner {
                bullet_type: BulletType::SmallRedCircle,
                position: Point { x: 0, y: 0 },
                movement_pattern: line,
            },
        ]
    );
    assert!(read_bullet_spawn_events(&Vec::new()).is_empty());
}

#[test]
fn bullet_spawn_event_default() {
    let event = BulletSpawnEvent::default();
    assert_eq!(event.bullet_type, BulletType::WhiteArrow);
    assert_eq!(event.position, Point { x: 0, y: 0 });
    assert_eq!(event.movement_pattern, MovementPatterns::DontMovePattern(DontMove));
}

#[test]
fn every_bullet_hits_within_one_unit() {
    assert_eq!(props_for_bullet_type(&BulletType::WhiteArrow).hit_circle_radius, 1000);
    assert_eq!(props_for_bullet_type(&BulletType::SmallPurpleCircle).hit_circle_radius, 1000);
}

#[test]
fn bullets_move_along_their_pattern() {
    let mut pattern = create_straight_line_pattern(5, 300_000);
    assert_eq!(
        move_bullets(&mut pattern, Point { x: 0, y: 0 }, SECOND / 3),
        Step::Along { distance: 99_999, angle: 5 }
    );
}

#[test]
fn shots_take_hit_points_off_an_enemy() {
    let mut enemy = Enemy { enemy_type: EnemyType::BlueFairy, hit_points: 5 };
    check_shot_enemy_collision(&mut enemy, &vec![1, 1, 2]);
    assert_eq!(enemy, Enemy { enemy_type: EnemyType::BlueFairy, hit_points: 1 });
    check_shot_enemy_collision(&mut enemy, &Vec::new());
    assert_eq!(enemy.hit_points, 1);
    check_shot_enemy_collision(&mut enemy, &vec![3]);
    assert_eq!(enemy.hit_points, -2);
    check_shot_enemy_collision(&mut enemy, &vec![i32::MAX, i32::MAX]);
    assert_eq!(enemy.hit_points, i32::MIN);
}

#[test]
fn enemy_dies_when_no_hit_points_are_left() {
    let position = Point { x: 3, y: 4 };
    let alive = Enemy { enemy_type: EnemyType::BigFairy, hit_points: 1 };
    assert_eq!(check_for_enemy_death(&alive, position), None);
    let spent = Enemy { enemy_type: EnemyType::BigFairy, hit_points: 0 };
    assert_eq!(
        check_for_enemy_death(&spent, position),
        Some(EnemyDeathEvent { enemy_type: EnemyType::BigFairy, position })
    );
    let overkilled = Enemy { enemy_type: EnemyType::Rumia, hit_points: -3 };
    assert_eq!(
        check_for_enemy_death(&overkilled, position),
        Some(EnemyDeathEvent { enemy_type: EnemyType::Rumia, position })
    );
}

#[test]
fn enemy_spawner_default_and_spawn() {
    let spawner = EnemySpawner::default();
    assert_eq!(spawner.name, "Enemy");
    assert_eq!(spawner.hit_points, 5);
    let mut spawned = spawn_enemy(spawner);
    assert_eq!(spawned.name, "Enemy");
    assert_eq!(spawned.enemy, Enemy { enemy_type: EnemyType::BlueFairy, hit_points: 5 });
    assert_eq!(spawned.position, Point { x: 0, y: 0 });
    assert_eq!(
        spawned.movement_pattern,
        MovementPatterns::StraightLinePattern(StraightLine { angle: 0, speed: 0 })
    );
    assert!(matches!(
        spawned.bullet_pattern,
        BulletPatterns::SingleShotPattern(_, Target::Player, _)
    ));
    let volley = fire_bullet_pattern(&mut spawned.bullet_pattern, 0, spawned.position, 9);
    assert_eq!(volley.len(), 1);
    assert_eq!(volley[0].bullet_type, BulletType::WhiteArrow);
    assert_eq!(
        volley[0].movement_pattern,
        MovementPatterns::StraightLinePattern(StraightLine { angle: 9, speed: 0 })
    );
}

#[test]
fn enemy_pose_follows_its_drift() {
    let position = Point { x: 0, y: 0 };
    let mut rightward = create_straight_line_pattern(0, 1);
    let (step, pose) = move_enemies(&mut rightward, position, SECOND);
    assert_eq!(step, Step::Along { distance: 1, angle: 0 });
    assert_eq!(pose, EnemyPose { sideways: true, flip_x: false });
    let mut leftward = create_straight_line_pattern(3_141_593, 1);
    assert_eq!(
        move_enemies(&mut leftward, position, SECOND).1,
        EnemyPose { sideways: true, flip_x: true }
    );
    let mut down_left = create_straight_line_pattern(-2_617_994, 1);
    assert_eq!(
        move_enemies(&mut down_left, position, SECOND).1,
        EnemyPose { sideways: true, flip_x: true }
    );
    let mut downward = create_straight_line_pattern(-1_570_796, 1);
    assert_eq!(
        move_enemies(&mut downward, position, SECOND).1,
        EnemyPose { sideways: false, flip_x: false }
    );
    let mut resting = MovementPatterns::DontMovePattern(DontMove);
    assert_eq!(
        move_enemies(&mut resting, position, SECOND).1,
        EnemyPose { sideways: false, flip_x: false }
    );
}

#[test]
fn player_dies_returns_and_is_safe_for_a_while() {
    let mut life = PlayerLife::Alive;
    assert!(is_vulnerable(&life));
    assert_eq!(respawn_player(&mut life, SECOND), LifeEvent::Nothing);
    assert!(check_bullet_player_collision(&mut life).is_some());
    assert!(!is_vulnerable(&life));
    assert!(check_bullet_player_collision(&mut life).is_none());
    assert_eq!(respawn_player(&mut life, RESPAWN_TIME - 1), LifeEvent::Nothing);
    assert!(matches!(life, PlayerLife::Respawning(_)));
    assert_eq!(respawn_player(&mut life, 1), LifeEvent::Respawned);
    assert!(matches!(life, PlayerLife::Invincible(_)));
    for _ in 0..19 {
        assert!(check_bullet_player_collision(&mut life).is_none());
        assert_eq!(respawn_player(&mut life, INVINCIBILITY_TIME / 20), LifeEvent::Nothing);
    }
    assert!(!is_vulnerable(&life));
    assert_eq!(
        respawn_player(&mut life, INVINCIBILITY_TIME / 20),
        LifeEvent::InvincibilityOver
    );
    assert!(is_vulnerable(&life));
    assert!(check_bullet_player_collision(&mut life).is_some());
    assert_eq!(RESPAWN_TIME, 500_000_000);
    assert_eq!(INVINCIBILITY_TIME, 2_000_000_000);
}

#[test]
fn player_sprite_follows_the_keys() {
    let mut indices = AnimationIndices { first: 9, last: 9, next_first: 1, next_last: 2 };
    assert!(!switch_player_sprite(true, false, &mut indices));
    assert_eq!(indices, AnimationIndices { first: 4, last: 7, next_first: 1, next_last: 2 });
    assert!(switch_player_sprite(false, true, &mut indices));
    assert_eq!((indices.first, indices.last), (4, 7));
    assert!(!switch_player_sprite(true, true, &mut indices));
    assert_eq!((indices.first, indices.last), (0, 3));
    assert!(!switch_player_sprite(false, false, &mut indices));
    assert_eq!((indices.first, indices.last), (0, 3));
}

#[test]
fn player_starts_at_the_bottom_of_the_middle_column() {
    let (player, position, timer) = spawn_player();
    assert_eq!(
        player,
        Player { full_movement_speed: 200_000, focused_speed: 60_000, hit_circle_radius: 5_000 }
    );
    assert_eq!(position, Point { x: -128_000, y: -150_000 });
    assert_eq!(timer.duration(), 100_000_000);
}

#[test]
fn player_moves_with_the_keys_and_stops_at_the_edges() {
    let (player, start, _) = spawn_player();
    let up = Steering { up: true, ..Steering::default() };
    assert_eq!(
        move_player(&player, start, up, SECOND / 2),
        Point { x: -128_000, y: -50_000 }
    );
    let slow_left = Steering { left: true, focused: true, ..Steering::default() };
    assert_eq!(
        move_player(&player, start, slow_left, SECOND),
        Point { x: -188_000, y: -150_000 }
    );
    let both = Steering { up: true, down: true, left: true, right: true, focused: false };
    assert_eq!(move_player(&player, start, both, SECOND), start);
    let at_top = Point { x: 0, y: FRAME_BORDER_TOP };
    assert_eq!(move_player(&player, at_top, up, SECOND), at_top);
    let below_top = Point { x: 0, y: FRAME_BORDER_TOP - 1 };
    assert_eq!(
        move_player(&player, below_top, up, SECOND),
        Point { x: 0, y: FRAME_BORDER_TOP - 1 + 200_000 }
    );
    let right = Steering { right: true, ..Steering::default() };
    let at_right = Point { x: FRAME_BORDER_RIGHT, y: 0 };
    assert_eq!(move_player(&player, at_right, right, SECOND), at_right);
    assert_eq!(move_player(&player, start, Steering::default(), SECOND), start);
}

#[test]
fn gun_fires_when_its_time_is_up_and_the_trigger_is_held() {
    let mut timer = Countdown::new(100_000_000);
    assert_eq!(fire_shot(&mut timer, 50_000_000, true), None);
    assert_eq!(
        fire_shot(&mut timer, 50_000_000, true),
        Some(PlayerShot { speed: 1_000_000, angle: HALF_PI as i64, damage: 1 })
    );
    assert_eq!(timer.elapsed(), 0);
    assert_eq!(fire_shot(&mut timer, 100_000_000, false), None);
    assert!(timer.finished());
    assert!(fire_shot(&mut timer, 0, true).is_some());
    assert!(!timer.finished());
}

#[test]
fn shots_fly_along_their_angle() {
    let shot = PlayerShot { speed: 1_000_000, angle: HALF_PI as i64, damage: 1 };
    assert_eq!(
        move_shot(&shot, 16_666_667),
        Step::Along { distance: 16_666, angle: HALF_PI as i64 }
    );
}

#[test]
fn lives_are_used_up_last_in_first_out() {
    let mut stats: PlayerStats<u32> = PlayerStats::new();
    assert_eq!(stats.starting_life_count, STARTING_LIFE_COUNT);
    assert_eq!(STARTING_LIFE_COUNT, 2);
    assert_eq!(stats.listen_for_player_death(), DeathOutcome::GameOver);
    stats.reset_player_lives(vec![10, 11]);
    assert_eq!(stats.lives, vec![10, 11]);
    assert_eq!(stats.listen_for_player_death(), DeathOutcome::LifeLost(11));
    assert_eq!(stats.listen_for_player_death(), DeathOutcome::LifeLost(10));
    assert_eq!(stats.listen_for_player_death(), DeathOutcome::GameOver);
    assert_eq!(stats.listen_for_player_death(), DeathOutcome::GameOver);
    stats.reset_player_lives(vec![20, 21]);
    assert_eq!(stats.lives.len(), 2);
}

#[test]
fn animation_setters() {
    let mut indices = AnimationIndices::default();
    set_animation_frames(&mut indices, 4, 7);
    assert_eq!(indices, AnimationIndices { first: 4, last: 7, next_first: 4, next_last: 7 });
    set_next_animation(&mut indices, 5, 5);
    assert_eq!(indices, AnimationIndices { first: 4, last: 7, next_first: 5, next_last: 5 });
    set_one_off_animation(&mut indices, 0, 3);
    assert_eq!(indices, AnimationIndices { first: 0, last: 3, next_first: 4, next_last: 7 });
}

#[test]
fn animation_runs_through_then_hands_over() {
    let mut indices = AnimationIndices { first: 0, last: 3, next_first: 4, next_last: 5 };
    let mut frame = 0;
    let mut shown = vec![frame];
    for _ in 0..8 {
        frame = animate_sprite(&mut indices, frame);
        shown.push(frame);
    }
    assert_eq!(shown, vec![0, 1, 2, 3, 4, 5, 4, 5, 4]);
    assert_eq!(indices, AnimationIndices { first: 4, last: 5, next_first: 4, next_last: 5 });
}

#[test]
fn animation_starts_over_from_outside() {
    let mut indices = AnimationIndices { first: 4, last: 7, next_first: 4, next_last: 7 };
    assert_eq!(animate_sprite(&mut indices, 12), 4);
    assert_eq!(animate_sprite(&mut indices, 0), 4);
    assert_eq!(animate_sprite(&mut indices, 6), 7);
    assert_eq!(animate_sprite(&mut indices, 7), 4);
}

#[test]
fn first_level_lays_out_thirty_six_fairies_in_order() {
    let (spawns, state) = level1_setup();
    assert_eq!(state, FirstLevelState::PreRumia);
    assert_eq!(FAIRIES, 36);
    assert_eq!(spawns.len(), 36);
    let times: Vec<u64> = spawns.iter().map(|(_, timer)| timer.0.duration() / 1_000_000).collect();
    assert_eq!(
        times,
        vec![
            400, 800, 1_200, 1_600, 2_000, 2_400, 2_800, 3_200, 3_600, 4_000, 6_200, 6_400,
            6_600, 6_800, 7_000, 8_200, 8_400, 8_600, 8_800, 9_000, 9_200, 9_400, 9_600, 9_800,
            10_000, 11_200, 11_400, 11_600, 11_800, 12_000, 14_400, 14_800, 15_200, 14_400,
            14_800, 15_200,
        ]
    );
    for (spawner, timer) in &spawns {
        assert_eq!(spawner.name, "Blue Fairy");
        assert_eq!(spawner.enemy_type, EnemyType::BlueFairy);
        assert_eq!(spawner.hit_points, 5);
        assert_eq!(spawner.starting_position.y, 316_000);
        assert_eq!(timer.0.elapsed(), 0);
    }
    let xs: Vec<i32> = spawns.iter().map(|(spawner, _)| spawner.starting_position.x).collect();
    assert_eq!(&xs[0..5], &[FRAME_BORDER_LEFT; 5]);
    assert_eq!(&xs[5..10], &[FRAME_BORDER_RIGHT; 5]);
    assert_eq!(&xs[10..15], &[-353_000, -296_750, -240_500, -184_250, -128_000]);
    assert_eq!(&xs[15..20], &[-128_000, -71_750, -15_500, 40_750, 97_000]);
    assert_eq!(&xs[20..25], &xs[10..15]);
    assert_eq!(&xs[25..30], &xs[15..20]);
    assert_eq!(&xs[30..33], &[87_000; 3]);
    assert_eq!(&xs[33..36], &[-343_000; 3]);
    assert!(matches!(
        spawns[0].0.movement_pattern,
        MovementPatterns::CurvedLinePattern(line)
            if line.max_angle == -523_599 && line.rate_of_change == 400_000
                && line.current_angle == -1_570_796 && line.speed == 150_000
                && line.distance_before_curve == 100_000
                && line.starting_position == spawns[0].0.starting_position
    ));
    assert!(matches!(
        spawns[7].0.movement_pattern,
        MovementPatterns::CurvedLinePattern(line)
            if line.max_angle == -2_617_994 && line.rate_of_change == -400_000
    ));
    assert!(matches!(
        spawns[12].0.movement_pattern,
        MovementPatterns::DeceleratePattern(ramp)
            if ramp.starting_speed == 400_000 && ramp.final_speed == 20_000
                && ramp.duration == 2_000_000_000 && ramp.elapsed == 0
                && ramp.angle == -1_570_796
    ));
    assert_eq!(
        spawns[31].0.movement_pattern,
        MovementPatterns::StraightLinePattern(StraightLine { angle: -1_570_796, speed: 100_000 })
    );
    assert!(matches!(
        spawns[3].0.bullet_pattern,
        BulletPatterns::SingleShotPattern(shot, Target::Player, _)
            if shot.bullet_type == BulletType::WhiteArrow && shot.speed == 200_000
    ));
    assert!(matches!(
        spawns[29].0.bullet_pattern,
        BulletPatterns::SingleShotPattern(shot, Target::Player, _)
            if shot.bullet_type == BulletType::BlueRimmedCircle && shot.speed == 200_000
    ));
    assert!(matches!(
        spawns[30].0.bullet_pattern,
        BulletPatterns::StarburstPattern(_, Target::Angle(-1_570_796), _)
    ));
    assert!(matches!(
        spawns[35].0.bullet_pattern,
        BulletPatterns::StarburstPattern(_, Target::Angle(1_570_796), _)
    ));
}

#[test]
fn side_fairies_fire_six_bullets_over_half_a_turn() {
    let (mut spawns, _) = level1_setup();
    let (spawner, _) = spawns.remove(30);
    let mut pattern = spawner.bullet_pattern;
    let origin = spawner.starting_position;
    let half: u64 = 500_000_000;
    let mut sizes: Vec<usize> = Vec::new();
    let mut first_volley = Vec::new();
    for _ in 0..6 {
        let volley = fire_bullet_pattern(&mut pattern, half, origin, 0);
        sizes.push(volley.len());
        if first_volley.is_empty() {
            first_volley = volley;
        }
    }
    assert_eq!(sizes, vec![6, 0, 6, 0, 6, 0]);
    let angles: Vec<i64> = first_volley
        .iter()
        .map(|event| match event.movement_pattern {
            MovementPatterns::StraightLinePattern(line) => {
                assert_eq!(line.speed, 200_000);
                line.angle
            }
            other => panic!("not a straight line: {:?}", other),
        })
        .collect();
    let low: i64 = -1_570_796 - 1_570_796;
    assert_eq!(
        angles,
        vec![low, low + 523_598, low + 1_047_197, low + 1_570_796, low + 2_094_395, low + 2_617_994]
    );
}
