//! Procedural generation of a grid city on a fixed-point lattice: zoning of
//! blocks by density, roads and lanes, buildings and props, and the motion of
//! cars along their lanes.
//!
//! All coordinates are integers; [`geometry::UNIT`] of them make one world
//! unit. Random choices are drawn from one seeded generator, in a fixed order.

pub mod assets;
pub mod city;
pub mod error;
pub mod geometry;
pub mod low_density;
pub mod medium_density;
pub mod rng;
pub mod roads_and_cars;
pub mod scene;
pub mod settings_ui;
pub mod skyscrapers;
pub mod stats;
pub mod stats_ui;
