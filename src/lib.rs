//! A digital-twin runtime for a drone launchpad: event-sourced projections of
//! launchpads, drones and missions, the stream combinators that tie them
//! together, and the controller that decides what the drone does next.

pub mod ids;
pub mod snapshot;
pub mod twin;
pub mod launchpad_twin;
pub mod drone_twin;
pub mod mission_twin;
pub mod waypoint;
pub mod controller;
pub mod stream_ops;
pub mod combine_latest;
pub mod switch_map;
pub mod network;
