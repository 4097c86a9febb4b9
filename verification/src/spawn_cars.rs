//! The spawn template resolver: from a key and a lane to a vehicle at the
//! start of its route.

use crate::car::{
    initial_heading, intersection, Car, CarView, Direction, Lane, Waypoint, CRUISE_SPEED,
};
use vstd::prelude::*;

verus! {

/// Width of the screen.
pub const SCREEN_WIDTH: i32 = 1_600_000;

/// Height of the screen.
pub const SCREEN_HEIGHT: i32 = 1_200_000;

/// Speed that aerial traffic is created with.
pub const PLANE_ENTRY_SPEED: u32 = 4_000;

/// Sprite size of aerial traffic, in pixels.
pub const PLANE_SIZE: (u32, u32) = (120, 80);

/// A key as the spawner reads it: the four arrows, each of which asks for a
/// vehicle on one approach, and any other key.
#[derive(Debug, Clone, Copy, PartialEq, Eq, Structural)]
pub enum Key {
    Left,
    Right,
    Up,
    Down,
    Other,
}

/// The approach that a key asks for: a vehicle travels the way its arrow
/// points, so it comes from the opposite side.
pub open spec fn key_direction(key: Key) -> Option<Direction> {
    match key {
        Key::Left => Some(Direction::East),
        Key::Right => Some(Direction::West),
        Key::Up => Some(Direction::South),
        Key::Down => Some(Direction::North),
        Key::Other => None,
    }
}

/// Where a ground vehicle of the given approach and lane starts.
pub open spec fn ground_start(direction: Direction, lane: Lane) -> (int, int) {
    match (direction, lane) {
        (Direction::East, Lane::Straight) => (1_600_000, 510_000),
        (Direction::East, Lane::Left) => (1_603_000, 570_000),
        (Direction::East, _) => (1_600_000, 450_000),
        (Direction::West, Lane::Straight) => (0, 690_000),
        (Direction::West, Lane::Left) => (0, 630_000),
        (Direction::West, _) => (0, 750_000),
        (Direction::South, Lane::Straight) => (890_000, 1_200_000),
        (Direction::South, Lane::Left) => (830_000, 1_200_000),
        (Direction::South, _) => (950_000, 1_200_000),
        (Direction::North, Lane::Straight) => (710_000, 0),
        (Direction::North, Lane::Left) => (773_000, 0),
        (Direction::North, _) => (650_000, 0),
    }
}

/// A waypoint that turns the vehicle to `angle`.
pub open spec fn turn(x: int, y: int, angle: i32) -> Waypoint {
    Waypoint { x: x as i32, y: y as i32, angle: Some(angle) }
}

/// A waypoint that leaves the heading as it is.
pub open spec fn exit(x: int, y: int) -> Waypoint {
    Waypoint { x: x as i32, y: y as i32, angle: None }
}

/// The route of a ground vehicle of the given approach and lane: straight
/// through, or one turn inside the intersection, and then off the screen.
pub open spec fn ground_route(direction: Direction, lane: Lane) -> Seq<Waypoint> {
    match (direction, lane) {
        (Direction::East, Lane::Straight) => seq![exit(-20_000, 510_000)],
        (Direction::East, Lane::Left) => seq![
            turn(773_000, 570_000, 180),
            exit(773_000, 1_240_000),
        ],
        (Direction::East, _) => seq![turn(950_000, 450_000, 360), exit(950_000, -40_000)],
        (Direction::West, Lane::Straight) => seq![exit(1_620_000, 690_000)],
        (Direction::West, Lane::Left) => seq![turn(830_000, 630_000, 360), exit(830_000, -40_000)],
        (Direction::West, _) => seq![turn(650_000, 750_000, 180), exit(650_000, 1_240_000)],
        (Direction::South, Lane::Straight) => seq![exit(890_000, -20_000)],
        (Direction::South, Lane::Left) => seq![
            turn(830_000, 570_000, 270),
            exit(-40_000, 570_000),
        ],
        (Direction::South, _) => seq![turn(950_000, 750_000, 90), exit(1_640_000, 750_000)],
        (Direction::North, Lane::Straight) => seq![exit(710_000, 1_220_000)],
        (Direction::North, Lane::Left) => seq![
            turn(773_000, 630_000, 90),
            exit(1_640_000, 630_000),
        ],
        (Direction::North, _) => seq![turn(650_000, 450_000, 270), exit(-40_000, 450_000)],
    }
}

/// The ground vehicle that a spawn creates.
pub open spec fn spawned(direction: Direction, lane: Lane, texture: usize, id: usize) -> CarView {
    CarView {
        id,
        position: ground_start(direction, lane),
        speed: CRUISE_SPEED as int,
        waypoints: ground_route(direction, lane),
        lane,
        direction,
        texture,
        angle: initial_heading(direction, lane),
        is_waiting: false,
        size: None,
        close_call_triggered: false,
    }
}

/// The aerial vehicle that a spawn creates: it crosses the screen from the
/// lower right to the upper left.
pub open spec fn spawned_plane(texture: usize, id: usize) -> CarView {
    CarView {
        id,
        position: (1_620_000, 1_000_000),
        speed: PLANE_ENTRY_SPEED as int,
        waypoints: seq![exit(-20_000, 170_000)],
        lane: Lane::Air,
        direction: Direction::East,
        texture,
        angle: initial_heading(Direction::East, Lane::Air),
        is_waiting: false,
        size: Some(PLANE_SIZE),
        close_call_triggered: false,
    }
}

/// The point lies off the screen.
pub open spec fn off_screen(p: (int, int)) -> bool {
    p.0 < 0 || p.0 > SCREEN_WIDTH || p.1 < 0 || p.1 > SCREEN_HEIGHT
}

/// Every ground route goes straight through or turns once: its last waypoint
/// lies off the screen and gives no heading, and the waypoint before it, if
/// there is one, lies inside the intersection, gives a heading, and is reached
/// from the start along one axis.
pub proof fn lemma_ground_routes(direction: Direction, lane: Lane)
    requires
        lane != Lane::Air,
    ensures
        ground_route(direction, lane).len() == if lane == Lane::Straight {
            1nat
        } else {
            2nat
        },
        ground_route(direction, lane).last().angle.is_none(),
        off_screen(
            (
                ground_route(direction, lane).last().x as int,
                ground_route(direction, lane).last().y as int,
            ),
        ),
        lane != Lane::Straight ==> ground_route(direction, lane)[0].angle.is_some()
            && intersection().holds(
            (ground_route(direction, lane)[0].x as int, ground_route(direction, lane)[0].y as int),
        ),
        ground_route(direction, lane)[0].x == ground_start(direction, lane).0 || ground_route(
            direction,
            lane,
        )[0].y == ground_start(direction, lane).1,
{
}

/// The approach that a key asks for, if it is an arrow.
pub fn approach_of(key: Key) -> (r: Option<Direction>)
    ensures
        r == key_direction(key),
{
    match key {
        Key::Left => Some(Direction::East),
        Key::Right => Some(Direction::West),
        Key::Up => Some(Direction::South),
        Key::Down => Some(Direction::North),
        Key::Other => None,
    }
}

/// A waypoint that turns the vehicle to `angle`.
fn turning(x: i32, y: i32, angle: i32) -> (w: Waypoint)
    ensures
        w == turn(x as int, y as int, angle),
{
    Waypoint { x, y, angle: Some(angle) }
}

/// A waypoint that leaves the heading as it is.
fn leaving(x: i32, y: i32) -> (w: Waypoint)
    ensures
        w == exit(x as int, y as int),
{
    Waypoint { x, y, angle: None }
}

/// The fixed table of ground templates: start and route for each approach
/// and each ground lane; nothing for the aerial lane.
pub fn ground_template(direction: Direction, lane: Lane) -> (r: Option<((i32, i32), Vec<Waypoint>)>)
    ensures
        r.is_some() <==> lane != Lane::Air,
        r matches Some((start, route)) ==> crate::geometry::point(start) == ground_start(
            direction,
            lane,
        ) && route@ == ground_route(direction, lane),
{
    let (start, route) = match direction {
        Direction::East => match lane {
            Lane::Straight => ((1_600_000, 510_000), vec![leaving(-20_000, 510_000)]),
            Lane::Left => (
                (1_603_000, 570_000),
                vec![turning(773_000, 570_000, 180), leaving(773_000, 1_240_000)],
            ),
            Lane::Right => (
                (1_600_000, 450_000),
                vec![turning(950_000, 450_000, 360), leaving(950_000, -40_000)],
            ),
            Lane::Air => {
                return None;
            },
        },
        Direction::West => match lane {
            Lane::Straight => ((0, 690_000), vec![leaving(1_620_000, 690_000)]),
            Lane::Left => (
                (0, 630_000),
                vec![turning(830_000, 630_000, 360), leaving(830_000, -40_000)],
            ),
            Lane::Right => (
                (0, 750_000),
                vec![turning(650_000, 750_000, 180), leaving(650_000, 1_240_000)],
            ),
            Lane::Air => {
                return None;
            },
        },
        Direction::South => match lane {
            Lane::Straight => ((890_000, 1_200_000), vec![leaving(890_000, -20_000)]),
            Lane::Left => (
                (830_000, 1_200_000),
                vec![turning(830_000, 570_000, 270), leaving(-40_000, 570_000)],
            ),
            Lane::Right => (
                (950_000, 1_200_000),
                vec![turning(950_000, 750_000, 90), leaving(1_640_000, 750_000)],
            ),
            Lane::Air => {
                return None;
            },
        },
        Direction::North => match lane {
            Lane::Straight => ((710_000, 0), vec![leaving(710_000, 1_220_000)]),
            Lane::Left => (
                (773_000, 0),
                vec![turning(773_000, 630_000, 90), leaving(1_640_000, 630_000)],
            ),
            Lane::Right => (
                (650_000, 0),
                vec![turning(650_000, 450_000, 270), leaving(-40_000, 450_000)],
            ),
            Lane::Air => {
                return None;
            },
        },
    };
    Some((start, route))
}

/// The ground vehicle that `key` asks for, on the given lane, with the given
/// texture and id. Nothing for a key that is no arrow, and nothing for the
/// aerial lane.
pub fn spawn_car(key: Key, lane: Lane, texture: usize, id: usize) -> (r: Option<Car>)
    ensures
        r.is_some() <==> key_direction(key).is_some() && lane != Lane::Air,
        r matches Some(car) ==> car@ == spawned(key_direction(key).unwrap(), lane, texture, id),
{
    let direction = match approach_of(key) {
        Some(direction) => direction,
        None => {
            return None;
        },
    };
    match ground_template(direction, lane) {
        Some((start, route)) => Some(
            Car::new(lane, start, route, CRUISE_SPEED, id, direction, texture, None),
        ),
        None => None,
    }
}

/// An aerial vehicle with the given texture and id.
pub fn spawn_plane(texture: usize, id: usize) -> (car: Car)
    ensures
        car@ == spawned_plane(texture, id),
{
    let route = vec![leaving(-20_000, 170_000)];
    assert(route@ =~= seq![exit(-20_000, 170_000)]);
    Car::new(
        Lane::Air,
        (1_620_000, 1_000_000),
        route,
        PLANE_ENTRY_SPEED,
        id,
        Direction::East,
        texture,
        Some(PLANE_SIZE),
    )
}

/// The ground lane of an index drawn from three.
pub open spec fn lane_of_index(index: usize) -> Lane {
    if index == 0 {
        Lane::Straight
    } else if index == 1 {
        Lane::Right
    } else {
        Lane::Left
    }
}

/// The ground lane of an index drawn from three.
pub fn ground_lane(index: usize) -> (lane: Lane)
    requires
        index <= 2,
    ensures
        lane == lane_of_index(index),
        lane != Lane::Air,
{
    if index == 0 {
        Lane::Straight
    } else if index == 1 {
        Lane::Right
    } else {
        Lane::Left
    }
}

/// The arrow key of an index drawn from four.
pub open spec fn key_of_index(index: usize) -> Key {
    if index == 0 {
        Key::Left
    } else if index == 1 {
        Key::Right
    } else if index == 2 {
        Key::Up
    } else {
        Key::Down
    }
}

/// The arrow key of an index drawn from four.
pub fn arrow_key(index: usize) -> (key: Key)
    requires
        index <= 3,
    ensures
        key == key_of_index(index),
        key != Key::Other,
{
    if index == 0 {
        Key::Left
    } else if index == 1 {
        Key::Right
    } else if index == 2 {
        Key::Up
    } else {
        Key::Down
    }
}

/// Draws an index below `n` from the thread's random number generator, by
/// `rand::Rng::gen_range` on `rand::thread_rng()` with the range `0..n`.
/// Trusted, not proved: that the number drawn lies in the range. Which number
/// it is depends on chance, and nothing is said of it. `gen_range` panics on
/// an empty range, which `n > 0` excludes.
#[verifier::external_body]
fn random_below(n: usize) -> (r: usize)
    requires
        n > 0,
    ensures
        r < n,
{
    rand::Rng::gen_range(&mut rand::thread_rng(), 0..n)
}

/// A ground lane drawn at random.
pub fn random_lane() -> (lane: Lane)
    ensures
        lane != Lane::Air,
{
    ground_lane(random_below(3))
}

/// An arrow key drawn at random.
pub fn random_key() -> (key: Key)
    ensures
        key_direction(key).is_some(),
{
    arrow_key(random_below(4))
}

/// The ground vehicle that `key` asks for, on a lane drawn at random and with
/// a texture drawn at random from a pool of `texture_count`. Nothing for a
/// key that is no arrow.
pub fn spawn_car_from_key(key: Key, texture_count: usize, id: usize) -> (r: Option<Car>)
    requires
        texture_count > 0,
    ensures
        r.is_some() <==> key_direction(key).is_some(),
        r matches Some(car) ==> car.lane != Lane::Air && car.texture < texture_count && car@
            == spawned(key_direction(key).unwrap(), car.lane, car.texture, id),
{
    let lane = random_lane();
    let texture = random_below(texture_count);
    spawn_car(key, lane, texture, id)
}

/// An aerial vehicle with a texture drawn at random from a pool of
/// `texture_count`.
pub fn spawn_plane_from_pool(texture_count: usize, id: usize) -> (car: Car)
    requires
        texture_count > 0,
    ensures
        car.texture < texture_count,
        car@ == spawned_plane(car.texture, id),
{
    spawn_plane(random_below(texture_count), id)
}

} // verus!
