use danmaku::game::{
    is_in_playfield, is_out_of_bounds, out_of_bounds_cleanup, BOUNDARY_DISTANCE,
    FRAME_BORDER_BOTTOM, FRAME_BORDER_LEFT, FRAME_BORDER_RIGHT, FRAME_BORDER_TOP,
};
use danmaku::geometry::{distance, interpolate, rate_over_time, Point, HALF_PI, PI, TAU};
use danmaku::spawns::{
    horizontal_line, spawn_is_due, SpawnTimeTracker, SpawnTimer, SPAWN_CENTER, SPAWN_LEFTMOST,
    SPAWN_OUTSIDE_LEFT, SPAWN_OUTSIDE_RIGHT, SPAWN_RIGHTMOST, SPAWN_TOP,
};
use danmaku::countdown::Countdown;

#[test]
fn angle_constants_are_in_microradians() {
    assert_eq!(PI, 3_141_593);
    assert_eq!(HALF_PI, 1_570_796);
    assert_eq!(TAU, 6_283_185);
    assert_eq!(PI, (std::f64::consts::PI * 1e6).round() as i32);
    assert_eq!(TAU, (std::f64::consts::TAU * 1e6).round() as i32);
}

#[test]
fn interpolate_hits_both_ends() {
    assert_eq!(interpolate(10, 20, 0, 4), 10);
    assert_eq!(interpolate(10, 20, 4, 4), 20);
    assert_eq!(interpolate(-5, 5, 1, 2), 0);
    assert_eq!(interpolate(i32::MIN, i32::MAX, 7, 7), i32::MAX);
    assert_eq!(interpolate(i32::MAX, i32::MIN, 7, 7), i32::MIN);
}

#[test]
fn interpolate_rounds_down() {
    assert_eq!(interpolate(0, 10, 1, 3), 3);
    assert_eq!(interpolate(0, -10, 1, 3), -4);
    assert_eq!(interpolate(0, 1, 1, 2), 0);
    assert_eq!(interpolate(0, -1, 1, 2), -1);
}

#[test]
fn interpolate_without_denominator_stays_at_the_start() {
    assert_eq!(interpolate(7, 100, 0, 0), 7);
}

#[test]
fn rate_over_time_rounds_toward_zero() {
    assert_eq!(rate_over_time(200_000, 1_000_000_000), 200_000);
    assert_eq!(rate_over_time(200_000, 16_666_667), 3_333);
    assert_eq!(rate_over_time(-200_000, 16_666_667), -3_333);
    assert_eq!(rate_over_time(1, 999_999_999), 0);
    assert_eq!(rate_over_time(-1, 999_999_999), 0);
    assert_eq!(rate_over_time(123, 0), 0);
    assert_eq!(rate_over_time(0, u64::MAX), 0);
}

#[test]
fn rate_over_time_stops_at_the_largest_number() {
    assert_eq!(rate_over_time(i32::MAX, u64::MAX), i64::MAX);
    assert_eq!(rate_over_time(i32::MIN, u64::MAX), i64::MIN);
}

#[test]
fn distance_rounds_down() {
    let origin = Point { x: 0, y: 0 };
    assert_eq!(distance(origin, Point { x: 1, y: 1 }), 1);
    assert_eq!(distance(origin, Point { x: 2, y: 2 }), 2);
    assert_eq!(distance(origin, Point { x: 1, y: 0 }), 1);
    assert_eq!(distance(origin, Point { x: 4, y: 3 }), 5);
    assert_eq!(distance(origin, Point { x: 4, y: 2 }), 4);
    assert_eq!(distance(origin, Point { x: 1_000_000, y: 0 }), 1_000_000);
    assert_eq!(distance(origin, Point { x: 1_000_000, y: 1_000_000 }), 1_414_213);
}

#[test]
fn distance_of_a_three_four_five_triangle() {
    assert_eq!(distance(Point { x: 0, y: 0 }, Point { x: 3_000, y: 4_000 }), 5_000);
    assert_eq!(distance(Point { x: -3_000, y: 4_000 }, Point { x: 0, y: 0 }), 5_000);
    assert_eq!(distance(Point { x: 7, y: 7 }, Point { x: 7, y: 7 }), 0);
}

#[test]
fn distance_across_the_whole_plane_fits() {
    let far = distance(
        Point { x: i32::MIN, y: i32::MIN },
        Point { x: i32::MAX, y: i32::MAX },
    );
    assert_eq!(far, 6_074_000_998);
}

#[test]
fn playfield_edges_are_inside() {
    assert!(is_in_playfield(Point { x: FRAME_BORDER_LEFT, y: FRAME_BORDER_TOP }));
    assert!(is_in_playfield(Point { x: FRAME_BORDER_RIGHT, y: FRAME_BORDER_BOTTOM }));
    assert!(!is_in_playfield(Point { x: FRAME_BORDER_LEFT - 1, y: 0 }));
    assert!(!is_in_playfield(Point { x: 0, y: FRAME_BORDER_TOP + 1 }));
    assert_eq!(FRAME_BORDER_LEFT, -353_000);
    assert_eq!(FRAME_BORDER_TOP, 266_000);
    assert_eq!(FRAME_BORDER_RIGHT, 97_000);
    assert_eq!(FRAME_BORDER_BOTTOM, -258_000);
}

#[test]
fn bounds_reach_a_margin_beyond_the_playfield() {
    assert_eq!(BOUNDARY_DISTANCE, 100_000);
    assert!(!is_out_of_bounds(Point { x: FRAME_BORDER_RIGHT + BOUNDARY_DISTANCE, y: 0 }));
    assert!(is_out_of_bounds(Point { x: FRAME_BORDER_RIGHT + BOUNDARY_DISTANCE + 1, y: 0 }));
    assert!(!is_out_of_bounds(Point { x: 0, y: FRAME_BORDER_BOTTOM - BOUNDARY_DISTANCE }));
    assert!(is_out_of_bounds(Point { x: 0, y: FRAME_BORDER_BOTTOM - BOUNDARY_DISTANCE - 1 }));
    assert!(is_out_of_bounds(Point { x: FRAME_BORDER_LEFT - BOUNDARY_DISTANCE - 1, y: 0 }));
    assert!(is_out_of_bounds(Point { x: 0, y: FRAME_BORDER_TOP + BOUNDARY_DISTANCE + 1 }));
}

#[test]
fn cleanup_picks_exactly_the_strays() {
    let positions = vec![
        Point { x: 0, y: 0 },
        Point { x: 500_000, y: 0 },
        Point { x: FRAME_BORDER_LEFT, y: FRAME_BORDER_TOP },
        Point { x: 0, y: -400_000 },
        Point { x: 0, y: 366_001 },
    ];
    assert_eq!(out_of_bounds_cleanup(&positions), vec![1, 3, 4]);
    assert_eq!(out_of_bounds_cleanup(&Vec::new()), Vec::<usize>::new());
}

#[test]
fn spawn_columns() {
    assert_eq!(SPAWN_OUTSIDE_LEFT, -403_000);
    assert_eq!(SPAWN_OUTSIDE_RIGHT, 147_000);
    assert_eq!(SPAWN_TOP, 316_000);
    assert_eq!(SPAWN_CENTER, -128_000);
    assert_eq!(SPAWN_LEFTMOST, -343_000);
    assert_eq!(SPAWN_RIGHTMOST, 87_000);
}

#[test]
fn horizontal_line_spaces_points_evenly() {
    let points = horizontal_line(FRAME_BORDER_LEFT, SPAWN_CENTER, SPAWN_TOP, 5);
    let xs: Vec<i32> = points.iter().map(|point| point.x).collect();
    assert_eq!(xs, vec![-353_000, -296_750, -240_500, -184_250, -128_000]);
    assert!(points.iter().all(|point| point.y == SPAWN_TOP));
}

#[test]
fn horizontal_line_of_one_point_and_of_none() {
    assert_eq!(horizontal_line(10, 20, 3, 1), vec![Point { x: 10, y: 3 }]);
    assert_eq!(horizontal_line(10, 20, 3, 0), Vec::<Point>::new());
}

#[test]
fn spawn_time_tracker_adds_up() {
    let mut tracker = SpawnTimeTracker::default();
    tracker.increment(400_000_000);
    let timer = tracker.timer_with_increment(400_000_000);
    assert_eq!(tracker.elapsed, 800_000_000);
    assert_eq!(timer.0.duration(), 800_000_000);
    assert_eq!(timer.0.elapsed(), 0);
    tracker.increment(u64::MAX);
    assert_eq!(tracker.elapsed, u64::MAX);
}

#[test]
fn spawner_is_due_exactly_once() {
    let mut timer = SpawnTimer(Countdown::new(1_000));
    let mut due = 0;
    for _ in 0..50 {
        if spawn_is_due(&mut timer, 100) {
            due += 1;
        }
    }
    assert_eq!(due, 1);
    assert!(timer.0.finished());
}
