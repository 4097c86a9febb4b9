use smart_intersection::spawn_cars::{random_key, spawn_car, spawn_plane, Key};
use smart_intersection::traffic::Traffic;
use smart_intersection::{Direction, Lane};

#[test]
fn a_new_road_is_empty() {
    let t = Traffic::new();
    assert!(t.cars().is_empty());
    assert_eq!(t.spawned(), 0);
    assert_eq!(t.close_calls(), 0);
}

#[test]
fn spawns_take_the_next_id() {
    let mut t = Traffic::new();
    assert_eq!(t.spawn(Key::Left, Lane::Straight, 1), Some(0));
    assert_eq!(t.spawn(Key::Other, Lane::Straight, 1), None);
    assert_eq!(t.spawn(Key::Up, Lane::Air, 1), None);
    assert_eq!(t.spawn(Key::Down, Lane::Left, 2), Some(1));
    assert_eq!(t.launch_plane(0), 2);
    assert_eq!(t.spawned(), 3);
    assert_eq!(
        t.cars(),
        &vec![
            spawn_car(Key::Left, Lane::Straight, 1, 0).unwrap(),
            spawn_car(Key::Down, Lane::Left, 2, 1).unwrap(),
            spawn_plane(0, 2),
        ]
    );
}

#[test]
fn random_spawns_take_the_next_id() {
    let mut t = Traffic::new();
    assert_eq!(t.spawn_from_key(Key::Other, 3), None);
    assert_eq!(t.spawned(), 0);
    assert_eq!(t.spawn_from_key(Key::Right, 3), Some(0));
    assert_eq!(t.launch_plane_from_pool(2), 1);
    assert_eq!(t.spawn_from_key(Key::Up, 1), Some(2));
    let cars = t.cars();
    assert_eq!(cars.len(), 3);
    assert_eq!((cars[0].id, cars[0].direction), (0, Direction::West));
    assert_ne!(cars[0].lane, Lane::Air);
    assert!(cars[0].texture < 3);
    assert_eq!(cars[0], spawn_car(Key::Right, cars[0].lane, cars[0].texture, 0).unwrap());
    assert!(cars[1].texture < 2);
    assert_eq!(cars[1], spawn_plane(cars[1].texture, 1));
    assert_eq!((cars[2].id, cars[2].texture), (2, 0));
}

#[test]
fn advance_moves_every_car_and_counts_close_calls() {
    let mut t = Traffic::new();
    t.spawn(Key::Down, Lane::Straight, 0);
    t.spawn(Key::Down, Lane::Straight, 0);
    t.spawn(Key::Left, Lane::Straight, 0);
    t.advance();
    let cars = t.cars();
    // the two vehicles from the North start on one spot: neither is ahead
    assert_eq!(cars[0].position, (710_000, 5_000));
    assert_eq!(cars[1].position, (710_000, 5_000));
    assert_eq!(cars[2].position, (1_595_000, 510_000));
    assert_eq!(t.close_calls(), 0);
    assert_eq!(t.retire(), Vec::<usize>::new());
    assert_eq!(t.cars().len(), 3);
}

#[test]
fn a_follower_spawned_too_soon_has_one_close_call() {
    let mut t = Traffic::new();
    t.spawn(Key::Right, Lane::Straight, 0);
    for _ in 0..5 {
        t.advance();
    }
    t.spawn(Key::Right, Lane::Straight, 0);
    t.advance();
    assert_eq!(t.cars()[0].position, (30_000, 690_000));
    assert!(t.cars()[1].is_waiting);
    assert_eq!(t.cars()[1].position, (0, 690_000));
    assert_eq!(t.close_calls(), 1);
    for _ in 0..6 {
        t.advance();
        assert!(t.cars()[1].is_waiting);
        assert_eq!(t.close_calls(), 1);
    }
    assert_eq!(t.cars()[0].position, (60_000, 690_000));
    t.advance();
    assert!(!t.cars()[1].is_waiting);
    assert_eq!(t.cars()[1].position, (5_000, 690_000));
    assert_eq!(t.close_calls(), 1);
}

#[test]
fn retired_ids_never_come_back() {
    let mut t = Traffic::new();
    let mut retired: Vec<usize> = vec![];
    let mut on_road: Vec<usize> = vec![];
    for tick in 0..3000 {
        if tick % 40 == 0 {
            let before = t.spawned();
            let id = t.spawn_from_key(random_key(), 3).unwrap();
            assert_eq!(id, before);
            assert_eq!(t.spawned(), before + 1);
            on_road.push(id);
        }
        if tick % 700 == 100 {
            on_road.push(t.launch_plane_from_pool(2));
        }
        let counted = t.close_calls();
        t.advance();
        assert!(t.close_calls() >= counted);
        assert!(t.close_calls() - counted <= t.cars().len());
        let gone = t.retire();
        for id in &gone {
            assert!(*id < t.spawned());
            assert!(!retired.contains(id));
            assert!(on_road.contains(id));
        }
        on_road.retain(|id| !gone.contains(id));
        retired.extend(gone);
        let ids: Vec<usize> = t.cars().iter().map(|c| c.id).collect();
        assert_eq!(ids, on_road);
        assert!(ids.windows(2).all(|w| w[0] < w[1]));
        assert!(t.cars().iter().all(|c| !c.has_finished()));
    }
    assert!(!retired.is_empty());
}
