//! The tick of a whole fleet: every vehicle advances against one snapshot
//! taken when the tick begins, and finished vehicles leave.

use crate::agent::{advanced, begins_close_call};
use crate::car::{views, Car, CarView};
use vstd::prelude::*;

verus! {

/// The fleet after one tick: each vehicle advanced against the fleet as it
/// was when the tick began, so that none sees what another did on this tick.
pub open spec fn fleet_advanced(fleet: Seq<CarView>) -> Seq<CarView> {
    Seq::new(fleet.len(), |i: int| advanced(fleet[i], fleet))
}

/// How many of the first `upto` vehicles begin a blocking episode on this
/// tick.
pub open spec fn close_calls_begun(fleet: Seq<CarView>, upto: int) -> int
    decreases upto,
{
    if upto <= 0 {
        0
    } else {
        close_calls_begun(fleet, upto - 1) + if begins_close_call(fleet[upto - 1], fleet) {
            1int
        } else {
            0int
        }
    }
}

/// No more blocking episodes begin than there are vehicles.
pub proof fn lemma_close_calls_bounded(fleet: Seq<CarView>, upto: int)
    requires
        0 <= upto,
    ensures
        0 <= close_calls_begun(fleet, upto) <= upto,
    decreases upto,
{
    if upto > 0 {
        lemma_close_calls_bounded(fleet, upto - 1);
    }
}

/// One tick of every vehicle, in order, each against the fleet as it was
/// when the tick began. The counter goes up by the number of blocking
/// episodes that begin.
pub fn advance_all(cars: &mut Vec<Car>, close_call_counter: &mut usize)
    requires
        *old(close_call_counter) + close_calls_begun(
            views(old(cars)@),
            old(cars)@.len() as int,
        ) <= usize::MAX,
    ensures
        views(final(cars)@) == fleet_advanced(views(old(cars)@)),
        *final(close_call_counter) == *old(close_call_counter) + close_calls_begun(
            views(old(cars)@),
            old(cars)@.len() as int,
        ),
{
    let snapshot = cars.clone();
    assert(views(snapshot@) =~= views(cars@));
    let ghost fleet = views(snapshot@);
    let n = cars.len();
    let mut i: usize = 0;
    while i < n
        invariant
            i <= n,
            n == cars.len(),
            n == snapshot.len(),
            fleet == views(snapshot@),
            fleet == views(old(cars)@),
            forall|j: int| 0 <= j < i ==> (#[trigger] cars@[j])@ == advanced(fleet[j], fleet),
            forall|j: int| i <= j < n ==> (#[trigger] cars@[j])@ == fleet[j],
            *close_call_counter == *old(close_call_counter) + close_calls_begun(fleet, i as int),
            *old(close_call_counter) + close_calls_begun(fleet, n as int) <= usize::MAX,
        decreases n - i,
    {
        proof {
            lemma_close_calls_monotonic(fleet, i as int + 1, n as int);
        }
        let car = &mut cars[i];
        car.update_position(snapshot.as_slice(), close_call_counter);
        i += 1;
    }
}

/// The count of blocking episodes grows with the number of vehicles counted.
pub proof fn lemma_close_calls_monotonic(fleet: Seq<CarView>, a: int, b: int)
    requires
        a <= b,
    ensures
        close_calls_begun(fleet, a) <= close_calls_begun(fleet, b),
    decreases b - a,
{
    if a < b {
        lemma_close_calls_monotonic(fleet, a, b - 1);
    }
}

/// The vehicles of a fleet that still have a way to go, in order.
pub open spec fn unfinished(cars: Seq<Car>) -> Seq<Car> {
    cars.filter(|c: Car| !c@.finished())
}

/// The ids of the finished vehicles of a fleet, in order.
pub open spec fn finished_ids(cars: Seq<Car>) -> Seq<usize> {
    cars.filter(|c: Car| c@.finished()).map_values(|c: Car| c.id)
}

/// Takes the finished vehicles out of the fleet and returns their ids; the
/// others stay, in their order.
pub fn remove_finished(cars: &mut Vec<Car>) -> (gone: Vec<usize>)
    ensures
        final(cars)@ == unfinished(old(cars)@),
        gone@ == finished_ids(old(cars)@),
{
    let mut gone: Vec<usize> = Vec::new();
    let mut i: usize = 0;
    while i < cars.len()
        invariant
            i <= cars.len(),
            i + gone.len() <= old(cars)@.len(),
            cars@.take(i as int) == unfinished(old(cars)@.take(i + gone.len())),
            gone@ == finished_ids(old(cars)@.take(i + gone.len())),
            cars@.skip(i as int) == old(cars)@.skip(i + gone.len()),
        decreases cars.len() - i,
    {
        let ghost k = i + gone.len();
        let ghost before = cars@;
        proof {
            assert(before[i as int] == before.skip(i as int)[0]);
            assert(k < old(cars)@.len()) by {
                assert(before.skip(i as int).len() > 0);
            }
            lemma_filter_step(old(cars)@, k);
        }
        if cars[i].has_finished() {
            let car = cars.remove(i);
            gone.push(car.id);
            proof {
                assert(old(cars)@.skip(k).skip(1) =~= old(cars)@.skip(k + 1));
            }
        } else {
            i += 1;
            proof {
                assert(old(cars)@.skip(k).skip(1) =~= old(cars)@.skip(k + 1));
            }
        }
    }
    proof {
        assert(old(cars)@.take(i + gone.len()) =~= old(cars)@);
    }
    gone
}

/// Filtering one more vehicle: it joins the unfinished ones or the finished
/// ones, at the end.
proof fn lemma_filter_step(cars: Seq<Car>, k: int)
    requires
        0 <= k < cars.len(),
    ensures
        cars[k]@.finished() ==> unfinished(cars.take(k + 1)) == unfinished(cars.take(k))
            && finished_ids(cars.take(k + 1)) == finished_ids(cars.take(k)).push(cars[k].id),
        !cars[k]@.finished() ==> unfinished(cars.take(k + 1)) == unfinished(cars.take(k)).push(
            cars[k],
        ) && finished_ids(cars.take(k + 1)) == finished_ids(cars.take(k)),
{
    reveal_with_fuel(Seq::filter, 2);
    assert(cars.take(k + 1).drop_last() =~= cars.take(k));
}

} // verus!
