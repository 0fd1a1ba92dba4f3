//! A four-way road intersection simulation: lanes of vehicles advance toward
//! a traffic-light-controlled crossing, cross it along a straight, left-turn
//! or right-turn path, and leave through the matching exit lane.

pub mod types;
pub mod geometry;
pub mod lanes;
pub mod intersection;
pub mod lights;
pub mod spawn;
pub mod laws;
pub mod step;

pub use geometry::are_too_close;
pub use lanes::move_lanes;
pub use intersection::move_intersection;
pub use lights::change_lights;
pub use spawn::spawn_vehicle;
pub use step::simulation_step;
pub use types::{Behavior, Lane, LaneLight, Lights, Vehicle};
