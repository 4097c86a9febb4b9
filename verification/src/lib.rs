//! Autonomous vehicles crossing an unsignaled four-way intersection.
//!
//! Vehicles resolve their conflicts among themselves, by priority: each one
//! keeps its distance from the vehicle ahead, and inside the intersection the
//! lower id goes first wherever two paths cross.
//!
//! Every length is an integer count of sub-units, [`geometry::SCALE`] of them
//! to one unit of the road plan, and every speed is a count of sub-units per
//! tick, so that each tick is computed exactly.
//!
//! - [`car`]: the vehicle and its model;
//! - [`conflict`]: which approaches may cross without yielding;
//! - [`follow`]: the following-distance check;
//! - [`gate`]: admission to the intersection;
//! - [`path`]: the path follower;
//! - [`agent`]: one tick of one vehicle;
//! - [`fleet`], [`traffic`]: one tick of all of them, and the books of a run;
//! - [`journey`]: what holds over many ticks;
//! - [`spawn_cars`]: the spawn templates;
//! - [`geometry`]: distances and steps in fixed point.

pub mod agent;
pub mod car;
pub mod conflict;
pub mod fleet;
pub mod follow;
pub mod gate;
pub mod geometry;
pub mod journey;
pub mod path;
pub mod spawn_cars;
pub mod traffic;

pub use car::{Car, CarView, Direction, Lane, Waypoint};
pub use spawn_cars::{spawn_car_from_key, Key};
pub use traffic::Traffic;
