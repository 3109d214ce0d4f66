//! Navigation and collision core of a tile-based arcade game: actors that
//! move continuously while staying in step with a waypoint graph, and
//! collectible items consumed by proximity.
pub mod app;
pub mod dots;
pub mod entity;
pub mod geometry;
pub mod map;
