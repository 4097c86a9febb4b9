//! What holds of a vehicle over any number of ticks, and of a fleet after a
//! tick.

use crate::agent::{
    advanced, begins_close_call, lemma_lower_id_holds_the_box, lemma_queue_never_grows,
    lemma_same_standing,
};
use crate::car::{CarView, FOLLOW_DISTANCE};
use crate::fleet::fleet_advanced;
use crate::follow::car_in_front;
use vstd::prelude::*;

verus! {

/// The vehicle after one tick against each of `snapshots`, in order.
pub open spec fn after_ticks(me: CarView, snapshots: Seq<Seq<CarView>>) -> CarView
    decreases snapshots.len(),
{
    if snapshots.len() == 0 {
        me
    } else {
        advanced(after_ticks(me, snapshots.drop_last()), snapshots.last())
    }
}

/// How often the vehicle raises the close-call counter over those ticks.
pub open spec fn close_calls_over(me: CarView, snapshots: Seq<Seq<CarView>>) -> int
    decreases snapshots.len(),
{
    if snapshots.len() == 0 {
        0
    } else {
        close_calls_over(me, snapshots.drop_last()) + if begins_close_call(
            after_ticks(me, snapshots.drop_last()),
            snapshots.last(),
        ) {
            1int
        } else {
            0int
        }
    }
}

/// Over any number of ticks, against whatever snapshots, the waypoint queue
/// of a vehicle never gets longer: after `k` ticks it is no longer than after
/// the first `j` of them. A finished vehicle stays as it is.
pub proof fn lemma_queue_shrinks_over_ticks(
    me: CarView,
    snapshots: Seq<Seq<CarView>>,
    j: int,
    k: int,
)
    requires
        0 <= j <= k <= snapshots.len(),
    ensures
        after_ticks(me, snapshots.take(k)).waypoints.len() <= after_ticks(
            me,
            snapshots.take(j),
        ).waypoints.len(),
        after_ticks(me, snapshots.take(j)).finished() ==> after_ticks(me, snapshots.take(k))
            == after_ticks(me, snapshots.take(j)),
    decreases k - j,
{
    if j < k {
        lemma_queue_shrinks_over_ticks(me, snapshots, j, k - 1);
        assert(snapshots.take(k).drop_last() =~= snapshots.take(k - 1));
        lemma_queue_never_grows(after_ticks(me, snapshots.take(k - 1)), snapshots[k - 1]);
    }
}

/// One close call per blocking episode. A vehicle, unfinished and on a lane
/// that yields, that the vehicle ahead blocks on every one of a run of ticks
/// does not move, and raises the counter once over the whole run: on the
/// first tick, and only if the episode had not begun before.
pub proof fn lemma_one_close_call_per_episode(me: CarView, snapshots: Seq<Seq<CarView>>)
    requires
        !me.finished(),
        !me.exempt(),
        forall|t: int|
            0 <= t < snapshots.len() ==> car_in_front(
                me,
                #[trigger] snapshots[t],
                FOLLOW_DISTANCE as int,
            ),
    ensures
        close_calls_over(me, snapshots) == if snapshots.len() > 0 && !me.close_call_triggered {
            1int
        } else {
            0int
        },
        after_ticks(me, snapshots).position == me.position,
        after_ticks(me, snapshots).waypoints == me.waypoints,
        snapshots.len() > 0 ==> after_ticks(me, snapshots) == (CarView {
            speed: 0,
            is_waiting: true,
            close_call_triggered: true,
            ..me
        }),
    decreases snapshots.len(),
{
    if snapshots.len() > 0 {
        let earlier = snapshots.drop_last();
        lemma_one_close_call_per_episode(me, earlier);
        lemma_same_standing(me, after_ticks(me, earlier), snapshots.last());
    }
}

/// After a tick of the fleet, of two vehicles with conflicting approaches
/// that both stood inside the intersection when the tick began, the one of
/// higher id waits where it stood, unless its lane is exempt or it is
/// finished.
pub proof fn lemma_gate_after_tick(fleet: Seq<CarView>, low: int, high: int)
    requires
        0 <= low < fleet.len(),
        0 <= high < fleet.len(),
        fleet[low].id < fleet[high].id,
        fleet[low].in_box(),
        fleet[high].in_box(),
        fleet[high].conflicts_with(fleet[low]),
        !fleet[high].exempt(),
        !fleet[high].finished(),
    ensures
        fleet_advanced(fleet)[high].is_waiting,
        fleet_advanced(fleet)[high].speed == 0,
        fleet_advanced(fleet)[high].position == fleet[high].position,
{
    lemma_lower_id_holds_the_box(fleet[high], fleet, low);
}

} // verus!
