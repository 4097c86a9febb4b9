//! The following-distance check: a vehicle stops behind a vehicle of its own
//! approach and lane that is ahead of it and too close.

use crate::car::{views, Car, CarView, Direction};
use crate::geometry::{nearer_than, within};
use vstd::prelude::*;

verus! {

/// `other` is strictly ahead of `me` along the way `me` travels: vehicles
/// from the North move toward greater `y`, from the South toward smaller `y`,
/// from the East toward smaller `x`, from the West toward greater `x`.
pub open spec fn ahead(me: CarView, other: CarView) -> bool {
    match me.direction {
        Direction::North => other.position.1 > me.position.1,
        Direction::South => other.position.1 < me.position.1,
        Direction::East => other.position.0 < me.position.0,
        Direction::West => other.position.0 > me.position.0,
    }
}

/// `other` is another vehicle of the same approach and lane, strictly ahead
/// of `me` and strictly nearer than `safe_distance`.
pub open spec fn leads(me: CarView, other: CarView, safe_distance: int) -> bool {
    &&& other.id != me.id
    &&& other.direction == me.direction
    &&& other.lane == me.lane
    &&& ahead(me, other)
    &&& nearer_than(me.position, other.position, safe_distance)
}

/// Some vehicle of the snapshot leads `me` too closely.
pub open spec fn car_in_front(me: CarView, peers: Seq<CarView>, safe_distance: int) -> bool {
    exists|i: int| 0 <= i < peers.len() && leads(me, #[trigger] peers[i], safe_distance)
}

impl Car {
    /// Whether `other` leads this vehicle too closely.
    pub fn is_led_by(&self, other: &Car, safe_distance: u32) -> (r: bool)
        ensures
            r == leads(self@, other@, safe_distance as int),
    {
        if other.id == self.id {
            return false;
        }
        if other.direction == self.direction && other.lane == self.lane {
            let is_ahead = match self.direction {
                Direction::North => other.position.1 > self.position.1,
                Direction::South => other.position.1 < self.position.1,
                Direction::East => other.position.0 < self.position.0,
                Direction::West => other.position.0 > self.position.0,
            };
            is_ahead && within(self.position, other.position, safe_distance)
        } else {
            false
        }
    }

    /// Whether some vehicle of the snapshot leads this one too closely.
    pub fn is_car_in_front(&self, others: &[Car], safe_distance: u32) -> (r: bool)
        ensures
            r == car_in_front(self@, views(others@), safe_distance as int),
    {
        let mut i: usize = 0;
        while i < others.len()
            invariant
                i <= others.len(),
                forall|j: int|
                    0 <= j < i ==> !leads(
                        self@,
                        #[trigger] views(others@)[j],
                        safe_distance as int,
                    ),
            decreases others.len() - i,
        {
            if self.is_led_by(&others[i], safe_distance) {
                assert(leads(self@, views(others@)[i as int], safe_distance as int));
                return true;
            }
            i += 1;
        }
        false
    }
}

} // verus!
