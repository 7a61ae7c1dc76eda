//! Procedural terrain for a tile world: the tile and coordinate model, the
//! layered generator, the stored form of a chunk, and the table of loaded
//! chunks with the slots of the store behind it.

pub mod args;
pub mod building;
pub mod generator;
pub mod layers;
pub mod manager;
pub mod properties;
pub mod records;
pub mod resources;
pub mod table;
pub mod tick;
pub mod user;
pub mod tile;
pub mod world;
