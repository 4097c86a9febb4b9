//! The admission gate: mutual exclusion over the intersection's rectangle,
//! by id (the lower id wins) and by the conflict table.

use crate::car::{intersection_box, views, Car, CarView};
use vstd::prelude::*;

verus! {

/// A vehicle of lower id stands inside the intersection.
pub open spec fn lower_id_in_box(me: CarView, peers: Seq<CarView>) -> bool {
    exists|i: int| 0 <= i < peers.len() && outranks_inside(me, #[trigger] peers[i])
}

/// `other` has a lower id than `me` and stands inside the intersection.
pub open spec fn outranks_inside(me: CarView, other: CarView) -> bool {
    other.id < me.id && other.in_box()
}

/// `other` stands inside the intersection on a path that crosses `me`'s.
pub open spec fn crosses_inside(me: CarView, other: CarView) -> bool {
    other.in_box() && me.conflicts_with(other)
}

/// A vehicle of lower id stands inside the intersection on a path that
/// crosses `me`'s: `me` has to yield to it.
pub open spec fn must_yield_in_box(me: CarView, peers: Seq<CarView>) -> bool {
    exists|i: int|
        0 <= i < peers.len() && outranks_inside(me, #[trigger] peers[i]) && crosses_inside(
            me,
            peers[i],
        )
}

/// Some vehicle, of whatever id, stands inside the intersection on a path that
/// crosses `me`'s.
pub open spec fn conflict_in_box(me: CarView, peers: Seq<CarView>) -> bool {
    exists|i: int| 0 <= i < peers.len() && crosses_inside(me, #[trigger] peers[i])
}

impl Car {
    /// Whether a vehicle of lower id stands inside the intersection.
    pub fn lower_id_in_box(&self, others: &[Car]) -> (r: bool)
        ensures
            r == lower_id_in_box(self@, views(others@)),
    {
        let bounds = intersection_box();
        let mut i: usize = 0;
        while i < others.len()
            invariant
                i <= others.len(),
                bounds == crate::car::intersection(),
                forall|j: int| 0 <= j < i ==> !outranks_inside(self@, #[trigger] views(others@)[j]),
            decreases others.len() - i,
        {
            let c = &others[i];
            if c.id != self.id && c.in_bounds(&bounds) && c.id < self.id {
                assert(outranks_inside(self@, views(others@)[i as int]));
                return true;
            }
            i += 1;
        }
        false
    }

    /// Whether this vehicle has to yield to one inside the intersection: one
    /// of lower id on a path that crosses its own.
    pub fn must_yield_in_box(&self, others: &[Car]) -> (r: bool)
        ensures
            r == must_yield_in_box(self@, views(others@)),
    {
        let bounds = intersection_box();
        let mut i: usize = 0;
        while i < others.len()
            invariant
                i <= others.len(),
                bounds == crate::car::intersection(),
                forall|j: int|
                    0 <= j < i ==> !(outranks_inside(self@, #[trigger] views(others@)[j])
                        && crosses_inside(self@, views(others@)[j])),
            decreases others.len() - i,
        {
            let c = &others[i];
            if c.id != self.id && c.in_bounds(&bounds) && c.id < self.id && self.conflicts_with(c) {
                assert(outranks_inside(self@, views(others@)[i as int]) && crosses_inside(
                    self@,
                    views(others@)[i as int],
                ));
                return true;
            }
            i += 1;
        }
        false
    }

    /// Whether any vehicle inside the intersection is on a path that crosses
    /// this one's.
    pub fn conflict_in_box(&self, others: &[Car]) -> (r: bool)
        ensures
            r == conflict_in_box(self@, views(others@)),
    {
        let bounds = intersection_box();
        let mut i: usize = 0;
        while i < others.len()
            invariant
                i <= others.len(),
                bounds == crate::car::intersection(),
                forall|j: int| 0 <= j < i ==> !crosses_inside(self@, #[trigger] views(others@)[j]),
            decreases others.len() - i,
        {
            let c = &others[i];
            if c.id != self.id && c.in_bounds(&bounds) && self.conflicts_with(c) {
                assert(crosses_inside(self@, views(others@)[i as int]));
                return true;
            }
            i += 1;
        }
        false
    }
}

} // verus!
