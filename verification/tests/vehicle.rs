use smart_intersection::car::{
    intersection_box, AIR_SPEED, BOX_SPEED, CRUISE_SPEED, FOLLOW_DISTANCE,
};
use smart_intersection::geometry::SCALE;
use smart_intersection::{Car, Direction, Lane, Waypoint};

fn exit_at(x: i32, y: i32) -> Vec<Waypoint> {
    vec![Waypoint { x, y, angle: None }]
}

fn car(id: usize, direction: Direction, lane: Lane, at: (i32, i32), way: Vec<Waypoint>) -> Car {
    Car::new(lane, at, way, CRUISE_SPEED, id, direction, 0, None)
}

#[test]
fn new_car_is_not_waiting() {
    let c = Car::new(
        Lane::Left,
        (773_000, 0),
        exit_at(773_000, 630_000),
        5_000,
        7,
        Direction::North,
        2,
        Some((10, 20)),
    );
    assert_eq!(c.id, 7);
    assert_eq!(c.position, (773_000, 0));
    assert_eq!(c.speed, 5_000);
    assert_eq!(c.waypoints, exit_at(773_000, 630_000));
    assert_eq!(c.lane, Lane::Left);
    assert_eq!(c.direction, Direction::North);
    assert_eq!(c.texture, 2);
    assert_eq!(c.size, Some((10, 20)));
    assert!(!c.is_waiting);
    assert!(!c.close_call_triggered);
}

#[test]
fn initial_heading_follows_approach_and_lane() {
    let heading = |direction, lane| Car::new(lane, (0, 0), vec![], 0, 0, direction, 0, None).angle;
    assert_eq!(heading(Direction::South, Lane::Straight), 360);
    assert_eq!(heading(Direction::North, Lane::Left), 180);
    assert_eq!(heading(Direction::East, Lane::Right), 270);
    assert_eq!(heading(Direction::West, Lane::Straight), 90);
    assert_eq!(heading(Direction::North, Lane::Air), 310);
    assert_eq!(heading(Direction::East, Lane::Air), 310);
}

#[test]
fn clone_keeps_every_field() {
    let mut c = car(5, Direction::West, Lane::Left, (1, 2), exit_at(3, 4));
    c.is_waiting = true;
    c.close_call_triggered = true;
    c.angle = 45;
    assert_eq!(c.clone(), c);
}

#[test]
fn has_finished_iff_queue_is_empty() {
    let mut c = car(0, Direction::North, Lane::Straight, (0, 0), exit_at(0, 10));
    assert!(!c.has_finished());
    c.waypoints.clear();
    assert!(c.has_finished());
}

#[test]
fn in_bounds_of_the_intersection() {
    let b = intersection_box();
    assert!(car(0, Direction::North, Lane::Straight, (600_000, 400_000), vec![]).in_bounds(&b));
    assert!(car(0, Direction::North, Lane::Straight, (1_000_000, 800_000), vec![]).in_bounds(&b));
    assert!(!car(0, Direction::North, Lane::Straight, (599_999, 400_000), vec![]).in_bounds(&b));
    assert!(!car(0, Direction::North, Lane::Straight, (700_000, 800_001), vec![]).in_bounds(&b));
}

#[test]
fn snaps_to_a_waypoint_nearer_than_the_speed() {
    let mut c = Car::new(
        Lane::Straight,
        (99 * SCALE, 100 * SCALE),
        vec![Waypoint { x: 100 * SCALE, y: 100 * SCALE, angle: Some(90) }],
        5 * SCALE as u32,
        0,
        Direction::South,
        0,
        None,
    );
    assert_eq!(c.angle, 360);
    let mut counter = 0;
    let snapshot = vec![c.clone()];
    c.update_position(&snapshot, &mut counter);
    assert_eq!(c.position, (100 * SCALE, 100 * SCALE));
    assert_eq!(c.angle, 90);
    assert!(c.waypoints.is_empty());
    assert!(c.has_finished());
    assert_eq!(c.speed, 5 * SCALE as u32);
    assert_eq!(counter, 0);
}

#[test]
fn snap_without_override_keeps_the_heading() {
    let mut c =
        car(0, Direction::West, Lane::Straight, (99_000, 100_000), exit_at(100_000, 100_000));
    c.follow_path();
    assert_eq!(c.position, (100_000, 100_000));
    assert_eq!(c.angle, 90);
    assert!(c.waypoints.is_empty());
}

#[test]
fn snap_consumes_only_the_first_waypoint() {
    let way = vec![
        Waypoint { x: 773_000, y: 570_000, angle: Some(180) },
        Waypoint { x: 773_000, y: 1_240_000, angle: None },
    ];
    let mut c = car(0, Direction::East, Lane::Left, (775_000, 570_000), way);
    c.follow_path();
    assert_eq!(c.position, (773_000, 570_000));
    assert_eq!(c.angle, 180);
    assert_eq!(c.waypoints, exit_at(773_000, 1_240_000));
}

#[test]
fn a_target_exactly_one_step_away_is_reached_but_not_consumed() {
    let mut c =
        car(0, Direction::West, Lane::Straight, (95_000, 100_000), exit_at(100_000, 100_000));
    c.follow_path();
    assert_eq!(c.position, (100_000, 100_000));
    assert_eq!(c.waypoints.len(), 1);
    c.follow_path();
    assert_eq!(c.position, (100_000, 100_000));
    assert!(c.waypoints.is_empty());
}

#[test]
fn follow_path_on_an_empty_queue_does_nothing() {
    let mut c = car(0, Direction::West, Lane::Straight, (95_000, 100_000), vec![]);
    let before = c.clone();
    c.follow_path();
    assert_eq!(c, before);
}

#[test]
fn cruises_outside_the_intersection() {
    let mut c =
        car(0, Direction::East, Lane::Straight, (1_600_000, 510_000), exit_at(-20_000, 510_000));
    c.speed = 1;
    let mut counter = 0;
    c.update_position(&[], &mut counter);
    assert_eq!(c.speed, CRUISE_SPEED);
    assert_eq!(c.position, (1_595_000, 510_000));
    assert!(!c.is_waiting);
    assert_eq!(c.waypoints.len(), 1);
}

#[test]
fn speeds_up_inside_the_intersection() {
    let mut c =
        car(0, Direction::North, Lane::Straight, (710_000, 400_000), exit_at(710_000, 1_220_000));
    let mut counter = 0;
    c.update_position(&[], &mut counter);
    assert_eq!(c.speed, BOX_SPEED);
    assert_eq!(c.position, (710_000, 408_000));
}

#[test]
fn the_zone_is_read_before_the_step() {
    let mut c =
        car(0, Direction::North, Lane::Straight, (710_000, 399_000), exit_at(710_000, 1_220_000));
    let mut counter = 0;
    c.update_position(&[], &mut counter);
    assert_eq!(c.speed, CRUISE_SPEED);
    assert_eq!(c.position, (710_000, 404_000));
    c.update_position(&[], &mut counter);
    assert_eq!(c.speed, BOX_SPEED);
    assert_eq!(c.position, (710_000, 412_000));
}

#[test]
fn planes_fly_at_air_speed_everywhere() {
    let mut p = Car::new(
        Lane::Air,
        (1_620_000, 1_000_000),
        exit_at(-20_000, 170_000),
        4_000,
        0,
        Direction::East,
        0,
        Some((120, 80)),
    );
    let mut counter = 0;
    p.update_position(&[], &mut counter);
    assert_eq!(p.speed, AIR_SPEED);
    assert_eq!(p.position, (1_610_632, 995_259));
    let mut inside = Car::new(
        Lane::Air,
        (800_000, 600_000),
        exit_at(700_000, 600_000),
        4_000,
        0,
        Direction::East,
        0,
        None,
    );
    inside.update_position(&[], &mut counter);
    assert_eq!(inside.speed, AIR_SPEED);
    assert_eq!(inside.position, (789_500, 600_000));
}

#[test]
fn a_finished_car_is_left_alone() {
    let mut c = car(1, Direction::North, Lane::Straight, (710_000, 500_000), vec![]);
    c.speed = 123;
    c.is_waiting = true;
    c.close_call_triggered = false;
    let leader =
        car(0, Direction::North, Lane::Straight, (710_000, 510_000), exit_at(710_000, 1_220_000));
    let before = c.clone();
    let mut counter = 4;
    c.update_position(&[leader, before.clone()], &mut counter);
    assert_eq!(c, before);
    assert_eq!(counter, 4);
}

#[test]
fn queue_never_grows_on_the_way_through() {
    let way = vec![
        Waypoint { x: 773_000, y: 630_000, angle: Some(90) },
        Waypoint { x: 1_640_000, y: 630_000, angle: None },
    ];
    let mut c = car(0, Direction::North, Lane::Left, (773_000, 0), way);
    let mut counter = 0;
    let mut last = c.waypoints.len();
    let mut ticks = 0;
    while !c.has_finished() {
        c.update_position(&[], &mut counter);
        assert!(c.waypoints.len() <= last);
        last = c.waypoints.len();
        ticks += 1;
        assert!(ticks < 1000);
    }
    assert_eq!(c.position, (1_640_000, 630_000));
    assert_eq!(c.angle, 90);
    assert_eq!(counter, 0);
}

#[test]
fn stops_behind_a_close_leader() {
    let way = exit_at(710_000, 1_220_000);
    let mut follower = car(1, Direction::North, Lane::Straight, (710_000, 100_000), way.clone());
    let leader = car(0, Direction::North, Lane::Straight, (710_000, 159_999), way);
    let snapshot = vec![leader, follower.clone()];
    let mut counter = 0;
    follower.update_position(&snapshot, &mut counter);
    assert!(follower.is_waiting);
    assert_eq!(follower.speed, 0);
    assert_eq!(follower.position, (710_000, 100_000));
    assert!(follower.close_call_triggered);
    assert_eq!(counter, 1);
}

#[test]
fn following_distance_is_strict() {
    let way = exit_at(710_000, 1_220_000);
    let follower = car(1, Direction::North, Lane::Straight, (710_000, 100_000), way.clone());
    let at_sixty = car(0, Direction::North, Lane::Straight, (710_000, 160_000), way.clone());
    let nearer = car(0, Direction::North, Lane::Straight, (710_000, 159_999), way.clone());
    let aside = car(0, Direction::North, Lane::Straight, (746_000, 148_000), way.clone());
    let aside_near = car(0, Direction::North, Lane::Straight, (746_000, 147_999), way);
    assert!(!follower.is_car_in_front(&[at_sixty], FOLLOW_DISTANCE));
    assert!(follower.is_car_in_front(&[nearer], FOLLOW_DISTANCE));
    assert!(!follower.is_car_in_front(&[aside], FOLLOW_DISTANCE));
    assert!(follower.is_car_in_front(&[aside_near], FOLLOW_DISTANCE));
}

#[test]
fn only_a_car_ahead_blocks() {
    let led = |d, x, y| {
        let me = car(9, d, Lane::Straight, (500_000, 500_000), exit_at(0, 0));
        me.is_car_in_front(&[car(1, d, Lane::Straight, (x, y), exit_at(0, 0))], 60_000)
    };
    assert!(led(Direction::North, 500_000, 510_000));
    assert!(!led(Direction::North, 500_000, 490_000));
    assert!(!led(Direction::North, 510_000, 500_000));
    assert!(led(Direction::South, 500_000, 490_000));
    assert!(!led(Direction::South, 500_000, 510_000));
    assert!(led(Direction::East, 490_000, 500_000));
    assert!(!led(Direction::East, 510_000, 500_000));
    assert!(led(Direction::West, 510_000, 500_000));
    assert!(!led(Direction::West, 490_000, 500_000));
}

#[test]
fn only_the_same_approach_and_lane_blocks() {
    let me = car(9, Direction::North, Lane::Straight, (500_000, 500_000), exit_at(0, 0));
    let other_lane = car(1, Direction::North, Lane::Left, (500_000, 510_000), exit_at(0, 0));
    let other_way = car(1, Direction::South, Lane::Straight, (500_000, 510_000), exit_at(0, 0));
    let myself = car(9, Direction::North, Lane::Straight, (500_000, 510_000), exit_at(0, 0));
    let leader = car(1, Direction::North, Lane::Straight, (500_000, 510_000), exit_at(0, 0));
    assert!(!me.is_car_in_front(&[other_lane, other_way, myself], 60_000));
    assert!(me.is_led_by(&leader, 60_000));
    assert!(!me.is_led_by(&leader, 10_000));
    assert!(!me.is_car_in_front(&[], 60_000));
}

#[test]
fn one_close_call_for_five_blocked_ticks() {
    let way = exit_at(710_000, 1_220_000);
    let mut follower = car(1, Direction::North, Lane::Straight, (710_000, 100_000), way.clone());
    let mut leader = car(0, Direction::North, Lane::Straight, (710_000, 130_000), way);
    leader.is_waiting = true;
    leader.speed = 0;
    let mut counter = 0;
    for _ in 0..5 {
        let snapshot = vec![leader.clone(), follower.clone()];
        follower.update_position(&snapshot, &mut counter);
        assert!(follower.is_waiting);
        assert_eq!(follower.speed, 0);
        assert_eq!(follower.position, (710_000, 100_000));
        assert!(follower.close_call_triggered);
    }
    assert_eq!(counter, 1);
}

#[test]
fn a_new_episode_counts_again() {
    let way = exit_at(710_000, 1_220_000);
    let mut follower = car(1, Direction::North, Lane::Straight, (710_000, 100_000), way.clone());
    let near = car(0, Direction::North, Lane::Straight, (710_000, 130_000), way.clone());
    let far = car(0, Direction::North, Lane::Straight, (710_000, 300_000), way);
    let mut counter = 0;
    follower.update_position(&[near.clone()], &mut counter);
    follower.update_position(&[near.clone()], &mut counter);
    assert_eq!(counter, 1);
    follower.update_position(&[far], &mut counter);
    assert!(!follower.close_call_triggered);
    assert!(!follower.is_waiting);
    assert_eq!(follower.position, (710_000, 105_000));
    follower.update_position(&[near], &mut counter);
    assert!(follower.close_call_triggered);
    assert_eq!(counter, 2);
}

#[test]
fn right_turns_and_planes_never_stop() {
    for lane in [Lane::Right, Lane::Air] {
        let way = exit_at(650_000, 450_000);
        let mut me =
            Car::new(lane, (650_000, 100_000), way.clone(), 5_000, 1, Direction::North, 0, None);
        me.is_waiting = true;
        me.close_call_triggered = true;
        let leader = Car::new(lane, (650_000, 110_000), way, 0, 0, Direction::North, 0, None);
        let mut counter = 0;
        me.update_position(&[leader], &mut counter);
        assert!(!me.is_waiting);
        assert!(me.close_call_triggered);
        assert_eq!(counter, 0);
        assert_ne!(me.position, (650_000, 100_000));
    }
}

#[test]
fn render_rect_centers_the_sprite() {
    let mut c = car(0, Direction::North, Lane::Straight, (100_900, 50_000), vec![]);
    assert_eq!(c.render_rect(), (60, 20, 80, 60));
    c.size = Some((120, 80));
    assert_eq!(c.render_rect(), (40, 10, 120, 80));
    c.size = Some((81, 61));
    assert_eq!(c.render_rect(), (60, 20, 81, 61));
    c.position = (-500, -1_500);
    c.size = Some((0, 0));
    assert_eq!(c.render_rect(), (0, -1, 0, 0));
}

#[test]
fn render_rect_at_the_limits() {
    let mut c = car(0, Direction::North, Lane::Straight, (i32::MIN, i32::MAX), vec![]);
    c.size = Some((u32::MAX, 0x8000_0000));
    assert_eq!(c.render_rect(), (-2_147_483, 2_147_483 + 0x4000_0000, u32::MAX, 0x8000_0000));
    c.size = Some((0x7fff_ffff, 2));
    assert_eq!(c.render_rect(), (-2_147_483 - 0x3fff_ffff, 2_147_482, 0x7fff_ffff, 2));
}
