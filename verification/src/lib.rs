//! Per-tick tactical decisions and steering control for a car that chases a
//! ball in a closed arena.
//!
//! A tick runs from a [`snapshot::Snapshot`] of the world through the role
//! ([`role`]), the target ([`planner`]) and the commands ([`control`]);
//! [`agent`] strings them together and [`state`] holds what outlasts a tick.
//!
//! Everything here is exact integer arithmetic. Lengths are whole arena
//! units, velocities are arena units per second, angles are billionths of a
//! radian, and commands are millionths of full deflection. The split of a
//! vector against a basis is handed out as exact fractions. Unit directions
//! are vectors of length [`vector::UNIT`], rounded away from zero, so that
//! what is measured along them is never short. Every contract says how its
//! result is rounded. Turning the game's floating-point values into these
//! units, and a direction into a heading, is left to the caller.

pub mod fixed;
pub mod arith;
pub mod angle;
pub mod vector;
pub mod vector_laws;
pub mod tuning;
pub mod snapshot;
pub mod state;
pub mod role;
pub mod planner;
pub mod planner_laws;
pub mod control;
pub mod agent;
