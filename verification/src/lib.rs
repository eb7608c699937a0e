//! A four-way road intersection controlled by traffic lights.
//!
//! Cars arrive from the four sides of a square window, queue behind one another,
//! wait at their light, cross the junction and may turn left or right on the way.
//! Coordinates are whole hundredths of a pixel (see [`geometry`]); the
//! application draws the shapes that each frame of the simulation returns.
pub mod geometry;
pub mod chance;
pub mod car;
pub mod light;
pub mod junction;
pub mod road;
pub mod control;
