//! The path follower: a vehicle moves toward the first waypoint of its queue
//! and consumes it on arrival.

use crate::car::{Car, CarView};
use crate::geometry::{approach, nearer_than, stepped};
use vstd::prelude::*;

verus! {

/// The vehicle after one tick along its path at its current speed. Where the
/// first waypoint is strictly nearer than the speed, the vehicle lands on it
/// exactly, takes its heading if it gives one, and drops it from the queue;
/// else it moves by the unit displacement vector scaled by the speed.
pub open spec fn followed(me: CarView) -> CarView {
    if me.waypoints.len() == 0 {
        me
    } else {
        let target = me.waypoints[0];
        let goal = (target.x as int, target.y as int);
        if nearer_than(me.position, goal, me.speed) {
            CarView {
                position: goal,
                angle: match target.angle {
                    Some(angle) => angle,
                    None => me.angle,
                },
                waypoints: me.waypoints.drop_first(),
                ..me
            }
        } else {
            CarView { position: stepped(me.position, goal, me.speed), ..me }
        }
    }
}

impl Car {
    /// One tick along the path at the current speed; nothing on an empty
    /// queue.
    pub fn follow_path(&mut self)
        ensures
            final(self)@ == followed(old(self)@),
    {
        if self.waypoints.len() == 0 {
            return;
        }
        let target = self.waypoints[0];
        let (next, arrived) = approach(self.position, (target.x, target.y), self.speed);
        self.position = next;
        if arrived {
            if let Some(angle) = target.angle {
                self.angle = angle;
            }
            self.waypoints.remove(0);
        }
    }
}

} // verus!
