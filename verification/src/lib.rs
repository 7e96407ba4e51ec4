//! Forward kinematics for serial-link robot arms over fixed-point arithmetic.
//!
//! All lengths and coordinates are `i64` values in millionths of a unit, and
//! all angles are `i64` values in microradians.  Homogeneous transforms are
//! fixed-size integer matrices whose composition rounds each entry once to the
//! fixed-point grid, so every contract in this crate pins the computed value
//! down exactly.

pub mod dh_parameters;
pub mod fixed;
pub mod geometry;
pub mod geometry3d;
pub mod kinematics;
pub mod model;
pub mod robot;
pub mod trig;
