//! Chunked tile-world position and spatial-query library.
//!
//! The world is an effectively infinite 2-D grid of tiles, stored as
//! fixed-size square chunks. An entity's place in the world is a canonical
//! `WorldPosition`: an absolute tile coordinate per axis plus a sub-tile
//! offset kept within `[0, tile_side_in_meters)`. Sub-tile distances are
//! measured in integer position units; the platform layer chooses how many
//! units make a meter and converts at the boundary.
//!
//! The core operations are re-canonicalizing a position whose offset has
//! drifted out of range, resolving an absolute tile coordinate to a tile
//! code through the chunk table, and the per-frame movement step that
//! proposes, validates and commits or rejects a move.

pub mod movement;
pub mod platform;
pub mod position;
pub mod tilemap;
pub mod world;
