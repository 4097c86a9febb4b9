//! The fleet with its books: the vehicles on the road in the order they were
//! spawned, the next id to hand out, and the count of close calls.

use crate::agent::lemma_identity_kept;
use crate::car::{views, Car, CarView, Lane};
use crate::fleet::{
    advance_all, close_calls_begun, finished_ids, fleet_advanced, remove_finished, unfinished,
};
use crate::spawn_cars::{
    key_direction, spawn_car, spawn_plane, spawn_plane_from_pool, spawned, spawned_plane, Key,
};
use vstd::prelude::*;

verus! {

/// The vehicles on the road and the counters of the run.
pub struct Traffic {
    cars: Vec<Car>,
    next_id: usize,
    close_calls: usize,
}

/// The mathematical model of the traffic.
pub struct TrafficView {
    pub cars: Seq<CarView>,
    pub next_id: int,
    pub close_calls: int,
}

/// Ids grow strictly along the sequence and stay below `bound`.
pub open spec fn ids_in_order(cars: Seq<CarView>, bound: int) -> bool {
    &&& forall|i: int, j: int|
        0 <= i < j < cars.len() ==> (#[trigger] cars[i]).id < (#[trigger] cars[j]).id
    &&& forall|i: int| 0 <= i < cars.len() ==> (#[trigger] cars[i]).id < bound
}

impl TrafficView {
    /// Ids follow the order of spawning: every vehicle on the road has a
    /// lower id than each one spawned after it, and than the next one to be
    /// spawned, so that no id is ever used twice.
    pub open spec fn wf(self) -> bool {
        0 <= self.next_id && 0 <= self.close_calls && ids_in_order(self.cars, self.next_id)
    }

    /// The traffic with one more vehicle, which takes the next id.
    pub open spec fn with(self, car: CarView) -> TrafficView {
        TrafficView { cars: self.cars.push(car), next_id: self.next_id + 1, ..self }
    }
}

impl View for Traffic {
    type V = TrafficView;

    closed spec fn view(&self) -> TrafficView {
        TrafficView {
            cars: views(self.cars@),
            next_id: self.next_id as int,
            close_calls: self.close_calls as int,
        }
    }
}

impl Traffic {
    /// An empty road; the first vehicle will get id 0.
    pub fn new() -> (traffic: Traffic)
        ensures
            traffic@ == (TrafficView { cars: Seq::empty(), next_id: 0, close_calls: 0 }),
            traffic@.wf(),
    {
        let traffic = Traffic { cars: Vec::new(), next_id: 0, close_calls: 0 };
        assert(traffic@.cars =~= Seq::empty());
        traffic
    }

    /// The vehicles on the road, in the order they were spawned.
    pub fn cars(&self) -> (cars: &Vec<Car>)
        ensures
            views(cars@) == self@.cars,
    {
        &self.cars
    }

    /// How many vehicles were spawned so far; also the next id.
    pub fn spawned(&self) -> (n: usize)
        ensures
            n == self@.next_id,
    {
        self.next_id
    }

    /// How many blocking episodes have begun so far.
    pub fn close_calls(&self) -> (n: usize)
        ensures
            n == self@.close_calls,
    {
        self.close_calls
    }

    /// Puts a vehicle that carries the next id on the road.
    fn enter(&mut self, car: Car)
        requires
            old(self)@.wf(),
            old(self)@.next_id < usize::MAX,
            car.id == old(self)@.next_id,
        ensures
            final(self)@ == old(self)@.with(car@),
            final(self)@.wf(),
    {
        self.cars.push(car);
        self.next_id = self.next_id + 1;
        assert(self@.cars =~= old(self)@.cars.push(car@));
    }

    /// Puts the ground vehicle that `key` asks for on the road, on the given
    /// lane and with the given texture, and returns its id. Nothing happens
    /// for a key that is no arrow, or for the aerial lane.
    pub fn spawn(&mut self, key: Key, lane: Lane, texture: usize) -> (id: Option<usize>)
        requires
            old(self)@.wf(),
            old(self)@.next_id < usize::MAX,
        ensures
            final(self)@.wf(),
            id.is_some() <==> key_direction(key).is_some() && lane != Lane::Air,
            id.is_none() ==> final(self)@ == old(self)@,
            id matches Some(n) ==> n == old(self)@.next_id && final(self)@ == old(self)@.with(
                spawned(key_direction(key).unwrap(), lane, texture, n),
            ),
    {
        match spawn_car(key, lane, texture, self.next_id) {
            Some(car) => {
                let id = car.id;
                self.enter(car);
                Some(id)
            },
            None => None,
        }
    }

    /// Puts the ground vehicle that `key` asks for on the road, with a lane
    /// and a texture drawn at random, the texture from a pool of
    /// `texture_count`, and returns its id. Nothing happens for a key that is
    /// no arrow.
    pub fn spawn_from_key(&mut self, key: Key, texture_count: usize) -> (id: Option<usize>)
        requires
            old(self)@.wf(),
            old(self)@.next_id < usize::MAX,
            texture_count > 0,
        ensures
            final(self)@.wf(),
            id.is_some() <==> key_direction(key).is_some(),
            id.is_none() ==> final(self)@ == old(self)@,
            id matches Some(n) ==> n == old(self)@.next_id && {
                let car = final(self)@.cars.last();
                car.lane != Lane::Air && car.texture < texture_count && final(self)@ == old(
                    self,
                )@.with(spawned(key_direction(key).unwrap(), car.lane, car.texture, n))
            },
    {
        match crate::spawn_cars::spawn_car_from_key(key, texture_count, self.next_id) {
            Some(car) => {
                let id = car.id;
                self.enter(car);
                Some(id)
            },
            None => None,
        }
    }

    /// Puts an aerial vehicle with the given texture on the road and returns
    /// its id.
    pub fn launch_plane(&mut self, texture: usize) -> (id: usize)
        requires
            old(self)@.wf(),
            old(self)@.next_id < usize::MAX,
        ensures
            final(self)@.wf(),
            id == old(self)@.next_id,
            final(self)@ == old(self)@.with(spawned_plane(texture, id)),
    {
        let id = self.next_id;
        self.enter(spawn_plane(texture, id));
        id
    }

    /// Puts an aerial vehicle on the road, with a texture drawn at random from
    /// a pool of `texture_count`, and returns its id.
    pub fn launch_plane_from_pool(&mut self, texture_count: usize) -> (id: usize)
        requires
            old(self)@.wf(),
            old(self)@.next_id < usize::MAX,
            texture_count > 0,
        ensures
            final(self)@.wf(),
            id == old(self)@.next_id,
            final(self)@.cars.len() == old(self)@.cars.len() + 1,
            final(self)@.cars.last().texture < texture_count,
            final(self)@ == old(self)@.with(spawned_plane(final(self)@.cars.last().texture, id)),
    {
        let id = self.next_id;
        self.enter(spawn_plane_from_pool(texture_count, id));
        id
    }

    /// One tick of every vehicle on the road, each against the road as it was
    /// when the tick began. Finished vehicles stay on the road until
    /// [`Traffic::retire`] takes them off.
    pub fn advance(&mut self)
        requires
            old(self)@.wf(),
            old(self)@.close_calls + close_calls_begun(
                old(self)@.cars,
                old(self)@.cars.len() as int,
            ) <= usize::MAX,
        ensures
            final(self)@.wf(),
            final(self)@ == (TrafficView {
                cars: fleet_advanced(old(self)@.cars),
                close_calls: old(self)@.close_calls + close_calls_begun(
                    old(self)@.cars,
                    old(self)@.cars.len() as int,
                ),
                ..old(self)@
            }),
    {
        advance_all(&mut self.cars, &mut self.close_calls);
        proof {
            let before = old(self)@.cars;
            crate::fleet::lemma_close_calls_bounded(before, before.len() as int);
            assert forall|i: int| 0 <= i < before.len() implies (#[trigger] fleet_advanced(
                before,
            )[i]).id == before[i].id by {
                lemma_identity_kept(before[i], before);
            }
        }
    }

    /// Takes the finished vehicles off the road and returns their ids. Their
    /// ids are never handed out again.
    pub fn retire(&mut self) -> (gone: Vec<usize>)
        requires
            old(self)@.wf(),
        ensures
            final(self)@.wf(),
            final(self)@ == (TrafficView {
                cars: old(self)@.cars.filter(|c: CarView| !c.finished()),
                ..old(self)@
            }),
            gone@ == old(self)@.cars.filter(|c: CarView| c.finished()).map_values(
                |c: CarView| c.id,
            ),
            forall|i: int|
                0 <= i < final(self)@.cars.len() ==> !(#[trigger] final(self)@.cars[i]).finished(),
            forall|k: int| 0 <= k < gone@.len() ==> (#[trigger] gone@[k]) < final(self)@.next_id,
    {
        let ghost before = self.cars@;
        let gone = remove_finished(&mut self.cars);
        proof {
            lemma_filter_views(before);
            lemma_filter_keeps_order(views(before), self.next_id as int);
            let road = old(self)@.cars;
            let done = road.filter(|c: CarView| c.finished());
            assert forall|i: int| 0 <= i < self@.cars.len() implies !(
            #[trigger] self@.cars[i]).finished() by {
                road.lemma_filter_pred(|c: CarView| !c.finished(), i);
            }
            assert forall|k: int| 0 <= k < gone@.len() implies (#[trigger] gone@[k])
                < self.next_id by {
                road.lemma_filter_contains_rev(|c: CarView| c.finished(), done[k]);
            }
        }
        gone
    }
}

/// Filtering the vehicles by what their models say is filtering the models.
pub proof fn lemma_filter_views(cars: Seq<Car>)
    ensures
        views(unfinished(cars)) == views(cars).filter(|c: CarView| !c.finished()),
        finished_ids(cars) == views(cars).filter(|c: CarView| c.finished()).map_values(
            |c: CarView| c.id,
        ),
    decreases cars.len(),
{
    reveal_with_fuel(Seq::filter, 2);
    if cars.len() > 0 {
        let rest = cars.drop_last();
        lemma_filter_views(rest);
        assert(views(cars).drop_last() =~= views(rest));
        if cars.last()@.finished() {
            let done = |c: CarView| c.finished();
            let id_of = |c: CarView| c.id;
            assert(views(cars).filter(done).map_values(id_of) =~= views(rest).filter(
                done,
            ).map_values(id_of).push(cars.last().id));
        }
    }
}

/// Taking vehicles off the road leaves the ids of the others in order.
pub proof fn lemma_filter_keeps_order(cars: Seq<CarView>, bound: int)
    requires
        ids_in_order(cars, bound),
    ensures
        ids_in_order(cars.filter(|c: CarView| !c.finished()), bound),
    decreases cars.len(),
{
    reveal_with_fuel(Seq::filter, 2);
    if cars.len() > 0 {
        let rest = cars.drop_last();
        assert(ids_in_order(rest, cars.last().id as int));
        lemma_filter_keeps_order(rest, cars.last().id as int);
    }
}

} // verus!
