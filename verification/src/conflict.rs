//! The conflict resolver: which pairs of approaches may cross the
//! intersection at the same time without either yielding.

use crate::car::{Direction, Lane};
use vstd::prelude::*;

verus! {

/// The approach that faces `d` across the intersection.
pub open spec fn opposite(d: Direction) -> Direction {
    match d {
        Direction::North => Direction::South,
        Direction::South => Direction::North,
        Direction::East => Direction::West,
        Direction::West => Direction::East,
    }
}

/// Two approaches conflict unless they come from the same direction, or both
/// go straight from opposite directions.
pub open spec fn conflict(dir_a: Direction, lane_a: Lane, dir_b: Direction, lane_b: Lane) -> bool {
    dir_a != dir_b && !(lane_a == Lane::Straight && lane_b == Lane::Straight && dir_b == opposite(
        dir_a,
    ))
}

/// The compatibility table of the intersection. Whatever the table does not
/// list is a conflict.
pub fn conflicts(dir_a: Direction, lane_a: Lane, dir_b: Direction, lane_b: Lane) -> (r: bool)
    ensures
        r == conflict(dir_a, lane_a, dir_b, lane_b),
{
    if dir_a == dir_b {
        return false;
    }
    match (dir_a, lane_a, dir_b, lane_b) {
        (Direction::North, Lane::Straight, Direction::South, Lane::Straight) => false,
        (Direction::South, Lane::Straight, Direction::North, Lane::Straight) => false,
        (Direction::East, Lane::Straight, Direction::West, Lane::Straight) => false,
        (Direction::West, Lane::Straight, Direction::East, Lane::Straight) => false,
        _ => true,
    }
}

/// The conflict relation does not depend on the order of the two approaches.
pub proof fn lemma_conflict_symmetric(
    dir_a: Direction,
    lane_a: Lane,
    dir_b: Direction,
    lane_b: Lane,
)
    ensures
        conflict(dir_a, lane_a, dir_b, lane_b) == conflict(dir_b, lane_b, dir_a, lane_a),
{
}

/// The whole table: approaches from one direction never conflict, the two
/// straight-through pairs (North with South, East with West) do not either,
/// and every other pair does.
pub proof fn lemma_conflict_table(dir_a: Direction, lane_a: Lane, dir_b: Direction, lane_b: Lane)
    ensures
        dir_a == dir_b ==> !conflict(dir_a, lane_a, dir_b, lane_b),
        lane_a == Lane::Straight && lane_b == Lane::Straight && (dir_a, dir_b) == (
            Direction::North,
            Direction::South,
        ) ==> !conflict(dir_a, lane_a, dir_b, lane_b),
        lane_a == Lane::Straight && lane_b == Lane::Straight && (dir_a, dir_b) == (
            Direction::East,
            Direction::West,
        ) ==> !conflict(dir_a, lane_a, dir_b, lane_b),
        dir_a != dir_b && (lane_a != Lane::Straight || lane_b != Lane::Straight) ==> conflict(
            dir_a,
            lane_a,
            dir_b,
            lane_b,
        ),
        dir_a != dir_b && dir_b != opposite(dir_a) ==> conflict(dir_a, lane_a, dir_b, lane_b),
{
}

} // verus!
