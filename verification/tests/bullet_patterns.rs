use danmaku::bullet::{BulletSpawnEvent, BulletType};
use danmaku::bullet_patterns::shotgun::Shotgun;
use danmaku::bullet_patterns::single_shot::{single_shot_at_player, SingleShot};
use danmaku::bullet_patterns::starburst::Starburst;
use danmaku::bullet_patterns::{
    fire_bullet_pattern, BulletPatternTarget, BulletPatterns, PatternError, Target,
};
use danmaku::geometry::{Point, DOWN, PI, TAU};
use danmaku::movement_patterns::straight_line::StraightLine;
use danmaku::movement_patterns::MovementPatterns;
use danmaku::shot_schedule::{create_shot_schedule, ShotSchedule, ENDLESS};

const SECOND: u64 = 1_000_000_000;

fn line_of(event: &BulletSpawnEvent) -> StraightLine {
    match event.movement_pattern {
        MovementPatterns::StraightLinePattern(line) => line,
        other => panic!("not a straight line: {:?}", other),
    }
}

#[test]
fn target_player_aims_where_the_player_is() {
    assert_eq!(Target::Player.get_angle(123_456), 123_456);
    assert_eq!(Target::Player.get_angle(-3_000_000), -3_000_000);
}

#[test]
fn target_angle_ignores_the_player() {
    assert_eq!(Target::Angle(777).get_angle(123_456), 777);
}

#[test]
fn direction_targets_map_to_targets() {
    assert_eq!(BulletPatternTarget::Player.target(), Target::Player);
    assert_eq!(BulletPatternTarget::Down.target(), Target::Angle(DOWN));
    assert_eq!(DOWN, -1_570_796);
}

#[test]
fn single_shot_fires_one_bullet_along_the_angle() {
    let shot = SingleShot { bullet_type: BulletType::SmallRedCircle, speed: 200_000 };
    let origin = Point { x: 5_000, y: -7_000 };
    let event = shot.fire(origin, 1_000_000);
    assert_eq!(event.bullet_type, BulletType::SmallRedCircle);
    assert_eq!(event.position, origin);
    assert_eq!(line_of(&event), StraightLine { angle: 1_000_000, speed: 200_000 });
}

#[test]
fn single_shot_default_is_a_still_white_arrow() {
    let shot = SingleShot::default();
    assert_eq!(shot, SingleShot { bullet_type: BulletType::WhiteArrow, speed: 0 });
}

#[test]
fn starburst_fires_lines_times_types_bullets() {
    let bullets = vec![
        BulletType::SmallRedCircle,
        BulletType::SmallYellowCircle,
        BulletType::SmallGreenCircle,
    ];
    let burst = Starburst::new(bullets.clone(), 7, TAU, (100_000, 300_000), 0).unwrap();
    let volley = burst.fire(Point { x: 0, y: 0 }, 0);
    assert_eq!(volley.len(), 7 * 3);
    for rank in 0..3 {
        for line in 0..7 {
            assert_eq!(volley[rank * 7 + line].bullet_type, bullets[rank]);
        }
    }
}

#[test]
fn starburst_speeds_span_the_range_with_both_ends() {
    let burst =
        Starburst::new(vec![BulletType::BlueRimmedCircle; 5], 16, TAU, (120_000, 200_000), 0)
            .unwrap();
    let volley = burst.fire(Point { x: 1, y: 2 }, 500_000);
    assert_eq!(volley.len(), 80);
    let expected = [120_000, 140_000, 160_000, 180_000, 200_000];
    for rank in 0..5 {
        for line in 0..16 {
            assert_eq!(line_of(&volley[rank * 16 + line]).speed, expected[rank]);
            assert_eq!(volley[rank * 16 + line].position, Point { x: 1, y: 2 });
        }
    }
}

#[test]
fn starburst_speeds_round_down_between_the_ends() {
    let burst =
        Starburst::new(vec![BulletType::WhiteArrow; 4], 1, TAU, (0, 100), 0).unwrap();
    let volley = burst.fire(Point { x: 0, y: 0 }, 0);
    let speeds: Vec<i32> = volley.iter().map(|event| line_of(event).speed).collect();
    assert_eq!(speeds, vec![0, 33, 66, 100]);
}

#[test]
fn starburst_speeds_may_fall() {
    let burst =
        Starburst::new(vec![BulletType::WhiteArrow; 3], 1, TAU, (300, 100), 0).unwrap();
    let volley = burst.fire(Point { x: 0, y: 0 }, 0);
    let speeds: Vec<i32> = volley.iter().map(|event| line_of(event).speed).collect();
    assert_eq!(speeds, vec![300, 200, 100]);
}

#[test]
fn starburst_with_one_type_uses_the_low_speed() {
    let burst =
        Starburst::new(vec![BulletType::SmallBlueCircle], 4, TAU, (120_000, 200_000), 0).unwrap();
    let volley = burst.fire(Point { x: 0, y: 0 }, 0);
    assert_eq!(volley.len(), 4);
    for event in &volley {
        assert_eq!(line_of(event).speed, 120_000);
    }
}

#[test]
fn starburst_lines_are_evenly_spread_around_the_angle() {
    let burst = Starburst::new(vec![BulletType::WhiteArrow], 4, 2_000_000, (0, 0), 0).unwrap();
    let volley = burst.fire(Point { x: 0, y: 0 }, 3_000_000);
    let angles: Vec<i64> = volley.iter().map(|event| line_of(event).angle).collect();
    assert_eq!(angles, vec![2_000_000, 2_500_000, 3_000_000, 3_500_000]);
}

#[test]
fn starburst_offset_turns_every_line() {
    let burst =
        Starburst::new(vec![BulletType::WhiteArrow], 2, 1_000_000, (0, 0), 250_000).unwrap();
    let volley = burst.fire(Point { x: 0, y: 0 }, 0);
    let angles: Vec<i64> = volley.iter().map(|event| line_of(event).angle).collect();
    assert_eq!(angles, vec![-250_000, 250_000]);
}

#[test]
fn starburst_full_circle_steps_round_down() {
    let burst = Starburst::new(vec![BulletType::WhiteArrow], 3, TAU, (0, 0), 0).unwrap();
    let volley = burst.fire(Point { x: 0, y: 0 }, 0);
    let angles: Vec<i64> = volley.iter().map(|event| line_of(event).angle).collect();
    let low = -(TAU as i64 / 2);
    assert_eq!(angles, vec![low, low + 2_094_395, low + 4_188_790]);
}

#[test]
fn starburst_without_lines_fires_nothing() {
    let burst = Starburst::default();
    assert_eq!(burst.fire(Point { x: 0, y: 0 }, 0).len(), 0);
}

#[test]
fn starburst_refuses_an_empty_bullet_list() {
    let made = Starburst::new(vec![], 4, TAU, (0, 0), 0);
    assert_eq!(made.err(), Some(PatternError::EmptyBulletList));
}

#[test]
fn starburst_refuses_a_negative_spread() {
    let made = Starburst::new(vec![BulletType::WhiteArrow], 4, -1, (0, 0), 0);
    assert_eq!(made.err(), Some(PatternError::NegativeSpread));
}

#[test]
fn shotgun_refuses_malformed_parameters() {
    assert_eq!(
        Shotgun::new(vec![], 10, (0, 1)).err(),
        Some(PatternError::EmptyBulletList)
    );
    assert_eq!(
        Shotgun::new(vec![BulletType::WhiteArrow], -10, (0, 1)).err(),
        Some(PatternError::NegativeSpread)
    );
    assert_eq!(
        Shotgun::new(vec![BulletType::WhiteArrow], 10, (2, 1)).err(),
        Some(PatternError::InvertedSpeedRange)
    );
    assert!(Shotgun::new(vec![BulletType::WhiteArrow], 0, (1, 1)).is_ok());
}

#[test]
fn pattern_errors_say_what_is_wrong() {
    assert_eq!(PatternError::EmptyBulletList.describe(), "the list of bullet types is empty");
    assert_eq!(PatternError::NegativeSpread.describe(), "the spread is negative");
    assert_eq!(
        PatternError::InvertedSpeedRange.describe(),
        "the low end of the speed range lies above the high end"
    );
}

#[test]
fn shotgun_bullets_stay_inside_cone_and_speed_range() {
    let bullets = vec![BulletType::RedRimmedCircle; 25];
    let gun = Shotgun::new(bullets, 392_699, (200_000, 300_000)).unwrap();
    let origin = Point { x: -128_000, y: 200_000 };
    let angle: i32 = -1_234_567;
    for _ in 0..200 {
        let volley = gun.fire(origin, angle);
        assert_eq!(volley.len(), 25);
        for event in &volley {
            assert_eq!(event.bullet_type, BulletType::RedRimmedCircle);
            assert_eq!(event.position, origin);
            let line = line_of(event);
            assert!(line.angle >= angle as i64 - 392_699 / 2);
            assert!(line.angle <= angle as i64 + 392_699 / 2);
            assert!(line.speed >= 200_000 && line.speed <= 300_000);
        }
    }
}

#[test]
fn shotgun_keeps_the_order_of_its_bullet_types() {
    let bullets = vec![
        BulletType::SmallRedCircle,
        BulletType::WhiteArrow,
        BulletType::SmallBlueCircle,
    ];
    let gun = Shotgun::new(bullets.clone(), PI, (1, 2)).unwrap();
    let volley = gun.fire(Point { x: 0, y: 0 }, 0);
    let types: Vec<BulletType> = volley.iter().map(|event| event.bullet_type).collect();
    assert_eq!(types, bullets);
}

#[test]
fn shotgun_draws_differ_from_shot_to_shot() {
    let gun = Shotgun::new(vec![BulletType::WhiteArrow; 64], TAU, (0, 1_000_000)).unwrap();
    let volley = gun.fire(Point { x: 0, y: 0 }, 0);
    let first = line_of(&volley[0]);
    assert!(volley.iter().any(|event| line_of(event).angle != first.angle));
    assert!(volley.iter().any(|event| line_of(event).speed != first.speed));
    let low = -(TAU as i64 / 2);
    assert!(volley.iter().any(|event| line_of(event).angle != low));
    assert!(volley.iter().any(|event| line_of(event).angle != -low));
    assert!(volley.iter().any(|event| line_of(event).speed != 0));
    assert!(volley.iter().any(|event| line_of(event).speed != 1_000_000));
}

#[test]
fn shotgun_with_no_spread_fires_straight() {
    let gun = Shotgun::new(vec![BulletType::WhiteArrow; 8], 0, (5, 5)).unwrap();
    for event in gun.fire(Point { x: 0, y: 0 }, 42) {
        assert_eq!(line_of(&event), StraightLine { angle: 42, speed: 5 });
    }
}

#[test]
fn shotgun_shot_builds_the_drawn_bullet() {
    let gun = Shotgun::new(
        vec![BulletType::SmallRedCircle, BulletType::SmallGreenCircle],
        10,
        (1, 2),
    )
    .unwrap();
    let event = gun.shot(Point { x: 3, y: 4 }, 1, -5, 2);
    assert_eq!(event.bullet_type, BulletType::SmallGreenCircle);
    assert_eq!(event.position, Point { x: 3, y: 4 });
    assert_eq!(line_of(&event), StraightLine { angle: -5, speed: 2 });
}

#[test]
fn pattern_fires_one_volley_per_ready_tick() {
    let burst = Starburst::new(vec![BulletType::WhiteArrow; 2], 3, TAU, (1, 2), 0).unwrap();
    let mut pattern = BulletPatterns::StarburstPattern(
        burst,
        Target::Player,
        create_shot_schedule(2 * SECOND, SECOND, 3),
    );
    let origin = Point { x: 0, y: 0 };
    let mut sizes: Vec<usize> = Vec::new();
    for _ in 0..8 {
        sizes.push(fire_bullet_pattern(&mut pattern, SECOND, origin, 0).len());
    }
    assert_eq!(sizes, vec![0, 6, 6, 6, 0, 0, 0, 0]);
}

#[test]
fn pattern_aims_by_its_target() {
    let shot = SingleShot { bullet_type: BulletType::WhiteArrow, speed: 9 };
    let mut at_player =
        BulletPatterns::SingleShotPattern(shot, Target::Player, ShotSchedule::default());
    let mut fixed =
        BulletPatterns::SingleShotPattern(shot, Target::Angle(-77), ShotSchedule::default());
    let origin = Point { x: 10, y: 20 };
    let first = fire_bullet_pattern(&mut at_player, 0, origin, 1_500_000);
    let second = fire_bullet_pattern(&mut fixed, 0, origin, 1_500_000);
    assert_eq!(first.len(), 1);
    assert_eq!(second.len(), 1);
    assert_eq!(line_of(&first[0]).angle, 1_500_000);
    assert_eq!(line_of(&second[0]).angle, -77);
    assert_eq!(first[0].position, origin);
}

#[test]
fn single_shot_at_player_fires_every_interval_from_the_start() {
    let mut pattern = single_shot_at_player(BulletType::WhiteArrow, 200_000, SECOND / 2, ENDLESS);
    assert!(matches!(
        pattern,
        BulletPatterns::SingleShotPattern(_, Target::Player, _)
    ));
    let origin = Point { x: 0, y: 0 };
    let mut fired = 0;
    for _ in 0..10 {
        fired += fire_bullet_pattern(&mut pattern, SECOND / 4, origin, 0).len();
    }
    assert_eq!(fired, 5);
}

#[test]
fn shotgun_pattern_fires_whole_volleys() {
    let gun = Shotgun::new(vec![BulletType::RedRimmedCircle; 5], 100, (1, 2)).unwrap();
    let mut pattern =
        BulletPatterns::ShotgunPattern(gun, Target::Player, create_shot_schedule(0, SECOND, 2));
    let origin = Point { x: 0, y: 0 };
    let mut sizes: Vec<usize> = Vec::new();
    for _ in 0..4 {
        sizes.push(fire_bullet_pattern(&mut pattern, SECOND, origin, 7).len());
    }
    assert_eq!(sizes, vec![5, 5, 0, 0]);
}
