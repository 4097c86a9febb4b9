//! One tick of one vehicle: the following-distance check, the speed of the
//! zone, admission to the intersection, and the step along the path.

use crate::car::{
    intersection_box, views, Car, CarView, Lane, AIR_SPEED, BOX_SPEED, CRUISE_SPEED,
    FOLLOW_DISTANCE,
};
use crate::conflict::conflict;
use crate::follow::{car_in_front, leads};
use crate::gate::{
    conflict_in_box, crosses_inside, lower_id_in_box, must_yield_in_box, outranks_inside,
};
use crate::path::followed;
use vstd::prelude::*;

verus! {

/// The speed that the vehicle's lane and zone give it: aerial traffic has its
/// own, ground traffic is faster inside the intersection than outside.
pub open spec fn zone_speed(me: CarView) -> int {
    if me.lane == Lane::Air {
        AIR_SPEED as int
    } else if me.in_box() {
        BOX_SPEED as int
    } else {
        CRUISE_SPEED as int
    }
}

/// The vehicle stopped where it stands, waiting.
pub open spec fn halted(me: CarView) -> CarView {
    CarView { speed: 0, is_waiting: true, ..me }
}

/// The vehicle released, one step further along its path at its zone's speed.
pub open spec fn released(me: CarView) -> CarView {
    followed(CarView { speed: zone_speed(me), is_waiting: false, ..me })
}

/// The vehicle is stopped by the one ahead of it this tick.
pub open spec fn blocked(me: CarView, peers: Seq<CarView>) -> bool {
    !me.finished() && !me.exempt() && car_in_front(me, peers, FOLLOW_DISTANCE as int)
}

/// Admission to the intersection is refused this tick. Inside the
/// intersection a vehicle yields to one of lower id that is inside on a
/// crossing path. One that waits outside stays so while any vehicle of lower
/// id is inside, or any vehicle at all is inside on a crossing path.
pub open spec fn held(me: CarView, peers: Seq<CarView>) -> bool {
    &&& !me.finished()
    &&& !me.exempt()
    &&& !car_in_front(me, peers, FOLLOW_DISTANCE as int)
    &&& if me.in_box() {
        must_yield_in_box(me, peers)
    } else {
        me.is_waiting && (lower_id_in_box(me, peers) || conflict_in_box(me, peers))
    }
}

/// A blocking episode begins this tick: the close call is counted now.
pub open spec fn begins_close_call(me: CarView, peers: Seq<CarView>) -> bool {
    blocked(me, peers) && !me.close_call_triggered
}

/// The vehicle after one tick against the snapshot `peers`, which holds every
/// vehicle as it was when the tick began (the vehicle itself too).
pub open spec fn advanced(me: CarView, peers: Seq<CarView>) -> CarView {
    if me.finished() {
        me
    } else if me.exempt() {
        released(me)
    } else if blocked(me, peers) {
        CarView { close_call_triggered: true, ..halted(me) }
    } else if held(me, peers) {
        CarView { close_call_triggered: false, ..halted(me) }
    } else {
        released(CarView { close_call_triggered: false, ..me })
    }
}

impl Car {
    /// One tick of this vehicle against the snapshot `others` of all vehicles
    /// as they were when the tick began. A finished vehicle is left as it is.
    /// The counter goes up by one on the tick on which a vehicle ahead
    /// begins to block this one.
    pub fn update_position(&mut self, others: &[Car], close_call_counter: &mut usize)
        requires
            begins_close_call(old(self)@, views(others@)) ==> *old(close_call_counter)
                < usize::MAX,
        ensures
            final(self)@ == advanced(old(self)@, views(others@)),
            *final(close_call_counter) == *old(close_call_counter) + (if begins_close_call(
                old(self)@,
                views(others@),
            ) {
                1int
            } else {
                0int
            }),
            final(self)@.waypoints.len() <= old(self)@.waypoints.len(),
            final(self)@.is_waiting ==> final(self)@.position == old(self)@.position,
            old(self)@.wf() || !old(self)@.finished() ==> final(self)@.wf(),
    {
        proof {
            lemma_queue_never_grows(old(self)@, views(others@));
            lemma_waiting_holds_position(old(self)@, views(others@));
        }
        if self.waypoints.is_empty() {
            return;
        }
        if self.lane == Lane::Right || self.lane == Lane::Air {
            self.is_waiting = false;
        } else if self.is_car_in_front(others, FOLLOW_DISTANCE) {
            self.speed = 0;
            self.is_waiting = true;
            if !self.close_call_triggered {
                *close_call_counter += 1;
                self.close_call_triggered = true;
            }
            return;
        } else {
            self.close_call_triggered = false;
        }
        proof {
            lemma_same_standing(old(self)@, self@, views(others@));
        }
        let bounds = intersection_box();
        let inside_intersection = self.in_bounds(&bounds);
        self.speed = match self.lane {
            Lane::Air => AIR_SPEED,
            _ => if inside_intersection {
                BOX_SPEED
            } else {
                CRUISE_SPEED
            },
        };
        proof {
            lemma_same_standing(old(self)@, self@, views(others@));
        }
        if inside_intersection && self.lane != Lane::Right && self.lane != Lane::Air {
            if self.must_yield_in_box(others) {
                self.speed = 0;
                self.is_waiting = true;
                return;
            }
            self.is_waiting = false;
        } else if self.is_waiting {
            let allowed = !self.lower_id_in_box(others);
            if allowed && !self.is_car_in_front(others, FOLLOW_DISTANCE) {
                if self.conflict_in_box(others) {
                    self.speed = 0;
                    self.is_waiting = true;
                    return;
                }
                self.is_waiting = false;
            } else {
                self.speed = 0;
                return;
            }
        }
        if !self.is_waiting {
            self.follow_path();
        }
    }
}

/// Two states of one vehicle that agree on id, position, approach and lane
/// stand alike before the following-distance check and at admission.
pub proof fn lemma_same_standing(a: CarView, b: CarView, peers: Seq<CarView>)
    requires
        a.id == b.id,
        a.position == b.position,
        a.direction == b.direction,
        a.lane == b.lane,
    ensures
        forall|d: int| car_in_front(a, peers, d) == car_in_front(b, peers, d),
        lower_id_in_box(a, peers) == lower_id_in_box(b, peers),
        must_yield_in_box(a, peers) == must_yield_in_box(b, peers),
        conflict_in_box(a, peers) == conflict_in_box(b, peers),
{
    assert forall|i: int| 0 <= i < peers.len() implies outranks_inside(a, #[trigger] peers[i])
        == outranks_inside(b, peers[i]) && crosses_inside(a, peers[i]) == crosses_inside(
        b,
        peers[i],
    ) && forall|d: int| leads(a, peers[i], d) == leads(b, peers[i], d) by {}
}

/// A tick never adds to the waypoint queue: it leaves the queue as it is or
/// drops its first waypoint. A finished vehicle stays finished.
pub proof fn lemma_queue_never_grows(me: CarView, peers: Seq<CarView>)
    ensures
        advanced(me, peers).waypoints == me.waypoints || (me.waypoints.len() > 0 && advanced(
            me,
            peers,
        ).waypoints == me.waypoints.drop_first()),
        advanced(me, peers).waypoints.len() <= me.waypoints.len(),
        me.finished() ==> advanced(me, peers) == me,
{
}

/// A vehicle that a tick leaves waiting has not moved on that tick, and, if
/// it is not finished, stands at speed zero: a tick keeps a vehicle well
/// formed, and makes an unfinished one so.
pub proof fn lemma_waiting_holds_position(me: CarView, peers: Seq<CarView>)
    ensures
        advanced(me, peers).is_waiting ==> advanced(me, peers).position == me.position,
        advanced(me, peers).is_waiting && !me.finished() ==> advanced(me, peers).speed == 0,
        me.wf() || !me.finished() ==> advanced(me, peers).wf(),
{
}

/// A tick changes neither the identity of a vehicle nor its approach, lane
/// and appearance.
pub proof fn lemma_identity_kept(me: CarView, peers: Seq<CarView>)
    ensures
        advanced(me, peers).id == me.id,
        advanced(me, peers).lane == me.lane,
        advanced(me, peers).direction == me.direction,
        advanced(me, peers).texture == me.texture,
        advanced(me, peers).size == me.size,
{
}

/// The lower id holds the intersection. Let `me`, unfinished and on a lane
/// that yields, stand inside the rectangle when the tick begins, together with
/// a vehicle of lower id with which it conflicts: then the tick leaves `me`
/// waiting, at speed zero, where it stood.
pub proof fn lemma_lower_id_holds_the_box(me: CarView, peers: Seq<CarView>, k: int)
    requires
        0 <= k < peers.len(),
        peers[k].id < me.id,
        peers[k].in_box(),
        me.in_box(),
        conflict(me.direction, me.lane, peers[k].direction, peers[k].lane),
        !me.exempt(),
        !me.finished(),
    ensures
        advanced(me, peers).is_waiting,
        advanced(me, peers).speed == 0,
        advanced(me, peers).position == me.position,
{
}

/// A vehicle that waits outside the intersection is not released while a
/// vehicle of lower id is inside.
pub proof fn lemma_queued_waits_for_lower_id(me: CarView, peers: Seq<CarView>, k: int)
    requires
        0 <= k < peers.len(),
        peers[k].id < me.id,
        peers[k].in_box(),
        !me.in_box(),
        me.is_waiting,
        !me.exempt(),
        !me.finished(),
    ensures
        advanced(me, peers).is_waiting,
        advanced(me, peers).speed == 0,
        advanced(me, peers).position == me.position,
{
}

/// The close-call flag of a vehicle that is not finished, on a lane that
/// yields, tells after each tick whether the vehicle ahead blocks it; and
/// whatever the vehicle, the counter goes up on exactly the ticks on which the
/// flag turns from false to true.
pub proof fn lemma_close_call_flag(me: CarView, peers: Seq<CarView>)
    ensures
        !me.finished() && !me.exempt() ==> advanced(me, peers).close_call_triggered
            == car_in_front(me, peers, FOLLOW_DISTANCE as int),
        begins_close_call(me, peers) <==> !me.close_call_triggered && advanced(
            me,
            peers,
        ).close_call_triggered,
{
}

/// Vehicles on exempt lanes are never left waiting.
pub proof fn lemma_exempt_never_waits(me: CarView, peers: Seq<CarView>)
    requires
        me.exempt(),
        !me.finished(),
    ensures
        !advanced(me, peers).is_waiting,
        advanced(me, peers).close_call_triggered == me.close_call_triggered,
        !begins_close_call(me, peers),
{
}

} // verus!
