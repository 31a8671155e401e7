//! Tools for a grid-world robot: a road-paving machine that gathers rocks and
//! lays them on the tile beside the robot, and a radar that scans ahead of
//! the robot for a given kind of ground.
pub mod paving;
pub mod radar;
pub mod world;
