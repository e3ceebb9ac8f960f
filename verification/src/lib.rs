//! Core of a small voxel world: entity-id allocation, axis-aligned
//! bounding-box collision with sliding response, the index-mapping layer that
//! keeps parallel render-geometry buffers consistent under O(1) removal, a
//! throttled incremental block loader, and the player movement state machine.
//!
//! All world coordinates are fixed-point integers in milli-units (one block
//! unit is `UNIT` = 1000), so every quantity the simulation manipulates is an
//! exact integer and every step of the simulation is deterministic.

pub mod aabb;
pub mod buffer;
pub mod geometry;
pub mod input;
pub mod minima;
pub mod player;
pub mod registry;
pub mod render_map;
pub mod selection;
pub mod units;
pub mod world;
pub mod worldgen;
