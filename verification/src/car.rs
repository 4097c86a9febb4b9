//! The vehicle agent: its state, its mathematical model, and the queries on
//! one vehicle that the rest of the library builds on.

use crate::conflict::{conflict, conflicts};
use crate::geometry::{point, Rect, SCALE};
use vstd::prelude::*;

verus! {

/// Distance under which a vehicle stops behind the one ahead of it.
pub const FOLLOW_DISTANCE: u32 = 60_000;

/// Ground speed outside the intersection, per tick.
pub const CRUISE_SPEED: u32 = 5_000;

/// Ground speed inside the intersection, per tick.
pub const BOX_SPEED: u32 = 8_000;

/// Speed of aerial traffic, per tick, wherever it is.
pub const AIR_SPEED: u32 = 10_500;

/// Sprite size, in pixels, of a vehicle that carries no size of its own.
pub const DEFAULT_SIZE: (u32, u32) = (80, 60);

/// What a vehicle intends to do at the intersection; `Air` is overflight
/// traffic.
#[derive(Debug, Clone, Copy, PartialEq, Eq, Structural)]
pub enum Lane {
    Straight,
    Right,
    Left,
    Air,
}

/// The compass approach a vehicle originates from.
#[derive(Debug, Clone, Copy, PartialEq, Eq, Structural)]
pub enum Direction {
    North,
    South,
    East,
    West,
}

/// A point to reach, and the heading to take on arrival, if any.
#[derive(Debug, Clone, Copy, PartialEq, Eq)]
pub struct Waypoint {
    pub x: i32,
    pub y: i32,
    pub angle: Option<i32>,
}

/// One vehicle. `id` doubles as its priority: the lower id wins a conflict.
/// `texture` is an index into an asset table that the renderer owns, `angle`
/// a heading in whole degrees.
#[derive(Debug, PartialEq, Eq)]
pub struct Car {
    pub id: usize,
    pub position: (i32, i32),
    pub speed: u32,
    pub waypoints: Vec<Waypoint>,
    pub lane: Lane,
    pub direction: Direction,
    pub texture: usize,
    pub angle: i32,
    pub is_waiting: bool,
    pub size: Option<(u32, u32)>,
    pub close_call_triggered: bool,
}

/// The mathematical model of a vehicle.
pub struct CarView {
    pub id: usize,
    pub position: (int, int),
    pub speed: int,
    pub waypoints: Seq<Waypoint>,
    pub lane: Lane,
    pub direction: Direction,
    pub texture: usize,
    pub angle: i32,
    pub is_waiting: bool,
    pub size: Option<(u32, u32)>,
    pub close_call_triggered: bool,
}

impl View for Car {
    type V = CarView;

    open spec fn view(&self) -> CarView {
        CarView {
            id: self.id,
            position: point(self.position),
            speed: self.speed as int,
            waypoints: self.waypoints@,
            lane: self.lane,
            direction: self.direction,
            texture: self.texture,
            angle: self.angle,
            is_waiting: self.is_waiting,
            size: self.size,
            close_call_triggered: self.close_call_triggered,
        }
    }
}

impl Clone for Car {
    /// A copy with the same model, waypoint queue included.
    fn clone(&self) -> (copy: Car)
        ensures
            copy@ == self@,
    {
        let waypoints = self.waypoints.clone();
        Car {
            id: self.id,
            position: self.position,
            speed: self.speed,
            waypoints,
            lane: self.lane,
            direction: self.direction,
            texture: self.texture,
            angle: self.angle,
            is_waiting: self.is_waiting,
            size: self.size,
            close_call_triggered: self.close_call_triggered,
        }
    }
}

/// The models of a snapshot of vehicles, in order.
pub open spec fn views(cars: Seq<Car>) -> Seq<CarView> {
    cars.map_values(|c: Car| c@)
}

/// The bounding rectangle of the intersection: the region that conflicting
/// vehicles may not share.
pub open spec fn intersection() -> Rect {
    Rect { x_min: 600_000, x_max: 1_000_000, y_min: 400_000, y_max: 800_000 }
}

/// The bounding rectangle of the intersection.
pub fn intersection_box() -> (r: Rect)
    ensures
        r == intersection(),
{
    Rect { x_min: 600_000, x_max: 1_000_000, y_min: 400_000, y_max: 800_000 }
}

/// The heading, in degrees, that a vehicle starts with.
pub open spec fn initial_heading(direction: Direction, lane: Lane) -> i32 {
    if lane == Lane::Air {
        310
    } else {
        match direction {
            Direction::South => 360,
            Direction::North => 180,
            Direction::East => 270,
            Direction::West => 90,
        }
    }
}

/// A coordinate in whole units, rounded toward zero.
pub open spec fn whole_units(c: int) -> int {
    if c >= 0 {
        c / (SCALE as int)
    } else {
        -((-c) / (SCALE as int))
    }
}

/// Half of a sprite's extent as the renderer centers it: the extent read as
/// a signed 32-bit number, halved toward zero.
pub open spec fn half_extent(extent: u32) -> int {
    if extent <= i32::MAX {
        extent as int / 2
    } else {
        -((0x1_0000_0000 - extent) / 2)
    }
}

/// The sprite's rectangle, in pixels: left, top, width and height, centered
/// on the vehicle.
pub open spec fn sprite_rect(me: CarView) -> (int, int, u32, u32) {
    let (w, h) = match me.size {
        Some(size) => size,
        None => DEFAULT_SIZE,
    };
    (
        whole_units(me.position.0) - half_extent(w),
        whole_units(me.position.1) - half_extent(h),
        w,
        h,
    )
}

/// A coordinate in whole units, rounded toward zero.
fn to_whole_units(c: i32) -> (u: i32)
    ensures
        u as int == whole_units(c as int),
        -2_147_484 < u < 2_147_484,
{
    if c >= 0 {
        c / SCALE
    } else {
        let magnitude: i64 = -(c as i64);
        (-(magnitude / (SCALE as i64))) as i32
    }
}

/// Half of a sprite's extent, as the renderer centers it.
fn to_half_extent(extent: u32) -> (half: i32)
    ensures
        half as int == half_extent(extent),
        -0x4000_0000 <= half < 0x4000_0000,
{
    if extent <= 0x7fff_ffff {
        (extent / 2) as i32
    } else {
        let rest: u64 = 0x1_0000_0000u64 - extent as u64;
        -((rest / 2) as i32)
    }
}

impl CarView {
    /// A vehicle is finished when nothing is left in its waypoint queue.
    pub open spec fn finished(self) -> bool {
        self.waypoints.len() == 0
    }

    /// The vehicle is inside the intersection's rectangle.
    pub open spec fn in_box(self) -> bool {
        intersection().holds(self.position)
    }

    /// Right-turning and aerial traffic never yields.
    pub open spec fn exempt(self) -> bool {
        self.lane == Lane::Right || self.lane == Lane::Air
    }

    /// A waiting vehicle stands still.
    pub open spec fn wf(self) -> bool {
        0 <= self.speed && (self.is_waiting ==> self.speed == 0)
    }

    /// The paths of the two vehicles may cross inside the intersection.
    pub open spec fn conflicts_with(self, other: CarView) -> bool {
        self.id != other.id && conflict(self.direction, self.lane, other.direction, other.lane)
    }
}

impl Car {
    /// A vehicle at `start`, not waiting, headed as its approach and lane say.
    pub fn new(
        lane: Lane,
        start: (i32, i32),
        waypoints: Vec<Waypoint>,
        speed: u32,
        id: usize,
        direction: Direction,
        texture: usize,
        size: Option<(u32, u32)>,
    ) -> (car: Car)
        ensures
            car@ == (CarView {
                id,
                position: point(start),
                speed: speed as int,
                waypoints: waypoints@,
                lane,
                direction,
                texture,
                angle: initial_heading(direction, lane),
                is_waiting: false,
                size,
                close_call_triggered: false,
            }),
            car@.wf(),
    {
        Car {
            id,
            position: start,
            speed,
            waypoints,
            lane,
            direction,
            texture,
            angle: match (direction, lane) {
                (_, Lane::Air) => 310,
                (Direction::South, _) => 360,
                (Direction::North, _) => 180,
                (Direction::East, _) => 270,
                (Direction::West, _) => 90,
            },
            is_waiting: false,
            size,
            close_call_triggered: false,
        }
    }

    /// Whether the vehicle has consumed its whole path.
    pub fn has_finished(&self) -> (r: bool)
        ensures
            r == self@.finished(),
    {
        self.waypoints.is_empty()
    }

    /// Whether the vehicle stands inside `bounds`, borders included.
    pub fn in_bounds(&self, bounds: &Rect) -> (r: bool)
        ensures
            r == bounds.holds(self@.position),
    {
        bounds.contains(self.position)
    }

    /// Where the renderer draws the vehicle: left, top, width and height of
    /// its sprite, in pixels.
    pub fn render_rect(&self) -> (r: (i32, i32, u32, u32))
        ensures
            (r.0 as int, r.1 as int, r.2, r.3) == sprite_rect(self@),
    {
        let (w, h) = match self.size {
            Some(size) => size,
            None => DEFAULT_SIZE,
        };
        (
            to_whole_units(self.position.0) - to_half_extent(w),
            to_whole_units(self.position.1) - to_half_extent(h),
            w,
            h,
        )
    }

    /// Whether the paths of the two vehicles may cross inside the
    /// intersection. A vehicle does not conflict with itself.
    pub fn conflicts_with(&self, other: &Car) -> (r: bool)
        ensures
            r == self@.conflicts_with(other@),
    {
        if self.id == other.id {
            return false;
        }
        conflicts(self.direction, self.lane, other.direction, other.lane)
    }
}

} // verus!
