//! The terrain layers: the rules that each claim tiles for one kind of terrain.
//! A layer knows its rank among the others, how it reads the noise field, and
//! the tile it lays down.

use vstd::prelude::*;
use std::ops::Range;
use rand::rngs::StdRng;
use rand::{Rng, SeedableRng};
use crate::tile::{ComplexTerrainTile, StaticTerrainTile, TerrainTile};
use crate::world::World;

verus! {

/// The number that a generator seeded with `seed` draws first from `low..high`.
pub uninterp spec fn seeded_draw(seed: u64, low: u32, high: u32) -> u32;

/// `rand::rngs::StdRng::seed_from_u64` followed by one `rand::Rng::gen_range`
/// over `low..high`. The draw depends on the seed and the two bounds alone, and
/// lies in the range. An empty range is left out: `gen_range` panics on it.
#[verifier::external_body]
fn draw(seed: u64, low: u32, high: u32) -> (value: u32)
    requires
        low < high,
    ensures
        value == seeded_draw(seed, low, high),
        low <= value < high,
{
    let mut rng = StdRng::seed_from_u64(seed);
    rng.gen_range(low..high)
}

/// The seed of the draw made for the tile at `(x, y)`: the world's seed and
/// the two coordinates, each read as 64 unsigned bits and combined bit by bit
/// with exclusive or.
pub open spec fn tile_seed(seed: i64, x: i64, y: i64) -> u64 {
    (seed as u64) ^ (x as u64) ^ (y as u64)
}

/// The magnitude of a deposit of a layer that draws from `low..high`, at
/// `(x, y)` in the world seeded with `seed`.
pub open spec fn deposit(seed: i64, x: i64, y: i64, low: u32, high: u32) -> u32 {
    seeded_draw(tile_seed(seed, x, y), low, high)
}

/// Whether a tile is one that a layer can lay down: static terrain, or a
/// deposit whose magnitude lies in the range its layer draws from, copper from
/// 1000 up to 6000, iron from 2000 up to 8000 and coal from 1000 up to 10000,
/// the upper end left out.
pub open spec fn in_range(tile: TerrainTile) -> bool {
    match tile {
        TerrainTile::Static(_) => true,
        TerrainTile::Complex(ComplexTerrainTile::Copper(magnitude)) => 1000 <= magnitude < 6000,
        TerrainTile::Complex(ComplexTerrainTile::Iron(magnitude)) => 2000 <= magnitude < 8000,
        TerrainTile::Complex(ComplexTerrainTile::Coal(magnitude)) => 1000 <= magnitude < 10000,
    }
}

/// What every terrain layer offers.
pub trait WorldResource {
    /// The layer's rank: of two layers that claim a tile, the one with the
    /// higher rank gets it.
    spec fn rank(&self) -> u8;

    /// The layer's name.
    spec fn label(&self) -> Seq<char>;

    /// The tile the layer lays down at `(x, y)` in the world seeded with `seed`.
    spec fn tile_at(&self, seed: i64, x: i64, y: i64) -> TerrainTile;

    /// The value that the layer's noise must exceed for a tile to belong to
    /// it, in hundredths.
    spec fn bar(&self) -> u8;

    /// What the layer multiplies a world coordinate by before it reads the
    /// noise field, in ten-thousandths.
    spec fn scale(&self) -> u16;

    /// The magnitude of the layer's deposit at `position`, drawn from `range`.
    /// The same world and position always give the same magnitude.
    fn get_complex_tile_value(&self, world: &World, position: [i64; 2], range: Range<u32>) -> (value:
        u32)
        requires
            range.start < range.end,
        ensures
            value == deposit(world.seed, position[0], position[1], range.start, range.end),
            range.start <= value < range.end,
    {
        let seed: u64 = #[verifier::truncate]
        (world.seed as u64) ^ #[verifier::truncate]
        (position[0] as u64) ^ #[verifier::truncate]
        (position[1] as u64);
        draw(seed, range.start, range.end)
    }

    fn terrain_tile(&self, world: &World, position: [i64; 2]) -> (tile: TerrainTile)
        ensures
            tile == self.tile_at(world.seed, position[0], position[1]),
            in_range(tile),
    ;

    fn priority(&self) -> (priority: u8)
        ensures
            priority == self.rank(),
    ;

    fn name(&self) -> (name: &'static str)
        ensures
            name@ == self.label(),
    ;

    /// The value that the layer's noise at a tile, less the offset in force,
    /// must exceed for the tile to belong to the layer, in hundredths.
    fn threshold(&self) -> (hundredths: u8)
        ensures
            hundredths == self.bar(),
    ;

    /// The spatial frequency at which the layer reads the noise field: what a
    /// world coordinate is multiplied by, in ten-thousandths.
    fn noise_scale(&self) -> (ten_thousandths: u16)
        ensures
            ten_thousandths == self.scale(),
    ;
}

pub struct Water;

impl WorldResource for Water {
    open spec fn rank(&self) -> u8 {
        99
    }

    open spec fn label(&self) -> Seq<char> {
        "Water"@
    }

    open spec fn tile_at(&self, seed: i64, x: i64, y: i64) -> TerrainTile {
        TerrainTile::Static(StaticTerrainTile::Water)
    }

    open spec fn bar(&self) -> u8 {
        50
    }

    open spec fn scale(&self) -> u16 {
        200
    }

    fn terrain_tile(&self, world: &World, position: [i64; 2]) -> (tile: TerrainTile) {
        TerrainTile::Static(StaticTerrainTile::Water)
    }

    fn priority(&self) -> (priority: u8) {
        99
    }

    fn name(&self) -> (name: &'static str) {
        "Water"
    }

    fn threshold(&self) -> (hundredths: u8) {
        50
    }

    fn noise_scale(&self) -> (ten_thousandths: u16) {
        200
    }
}

pub struct Impassable;

impl WorldResource for Impassable {
    open spec fn rank(&self) -> u8 {
        100
    }

    open spec fn label(&self) -> Seq<char> {
        "Impassable"@
    }

    open spec fn tile_at(&self, seed: i64, x: i64, y: i64) -> TerrainTile {
        TerrainTile::Static(StaticTerrainTile::Impassable)
    }

    open spec fn bar(&self) -> u8 {
        40
    }

    open spec fn scale(&self) -> u16 {
        100
    }

    fn terrain_tile(&self, world: &World, position: [i64; 2]) -> (tile: TerrainTile) {
        TerrainTile::Static(StaticTerrainTile::Impassable)
    }

    fn priority(&self) -> (priority: u8) {
        100
    }

    fn name(&self) -> (name: &'static str) {
        "Impassable"
    }

    fn threshold(&self) -> (hundredths: u8) {
        40
    }

    fn noise_scale(&self) -> (ten_thousandths: u16) {
        100
    }
}

pub struct Copper;

impl WorldResource for Copper {
    open spec fn rank(&self) -> u8 {
        5
    }

    open spec fn label(&self) -> Seq<char> {
        "Copper"@
    }

    open spec fn tile_at(&self, seed: i64, x: i64, y: i64) -> TerrainTile {
        TerrainTile::Complex(ComplexTerrainTile::Copper(deposit(seed, x, y, 1000, 6000)))
    }

    open spec fn bar(&self) -> u8 {
        80
    }

    open spec fn scale(&self) -> u16 {
        400
    }

    fn terrain_tile(&self, world: &World, position: [i64; 2]) -> (tile: TerrainTile)
        ensures
            tile matches TerrainTile::Complex(ComplexTerrainTile::Copper(magnitude)) && 1000
                <= magnitude < 6000,
    {
        let value = self.get_complex_tile_value(world, position, 1000..6000);
        TerrainTile::Complex(ComplexTerrainTile::Copper(value))
    }

    fn priority(&self) -> (priority: u8) {
        5
    }

    fn name(&self) -> (name: &'static str) {
        "Copper"
    }

    fn threshold(&self) -> (hundredths: u8) {
        80
    }

    fn noise_scale(&self) -> (ten_thousandths: u16) {
        400
    }
}

pub struct Iron;

impl WorldResource for Iron {
    open spec fn rank(&self) -> u8 {
        6
    }

    open spec fn label(&self) -> Seq<char> {
        "Iron"@
    }

    open spec fn tile_at(&self, seed: i64, x: i64, y: i64) -> TerrainTile {
        TerrainTile::Complex(ComplexTerrainTile::Iron(deposit(seed, x, y, 2000, 8000)))
    }

    open spec fn bar(&self) -> u8 {
        80
    }

    open spec fn scale(&self) -> u16 {
        300
    }

    fn terrain_tile(&self, world: &World, position: [i64; 2]) -> (tile: TerrainTile)
        ensures
            tile matches TerrainTile::Complex(ComplexTerrainTile::Iron(magnitude)) && 2000
                <= magnitude < 8000,
    {
        let value = self.get_complex_tile_value(world, position, 2000..8000);
        TerrainTile::Complex(ComplexTerrainTile::Iron(value))
    }

    fn priority(&self) -> (priority: u8) {
        6
    }

    fn name(&self) -> (name: &'static str) {
        "Iron"
    }

    fn threshold(&self) -> (hundredths: u8) {
        80
    }

    fn noise_scale(&self) -> (ten_thousandths: u16) {
        300
    }
}

pub struct Coal;

impl WorldResource for Coal {
    open spec fn rank(&self) -> u8 {
        25
    }

    open spec fn label(&self) -> Seq<char> {
        "Coal"@
    }

    open spec fn tile_at(&self, seed: i64, x: i64, y: i64) -> TerrainTile {
        TerrainTile::Complex(ComplexTerrainTile::Coal(deposit(seed, x, y, 1000, 10000)))
    }

    open spec fn bar(&self) -> u8 {
        75
    }

    open spec fn scale(&self) -> u16 {
        333
    }

    fn terrain_tile(&self, world: &World, position: [i64; 2]) -> (tile: TerrainTile)
        ensures
            tile matches TerrainTile::Complex(ComplexTerrainTile::Coal(magnitude)) && 1000
                <= magnitude < 10000,
    {
        let value = self.get_complex_tile_value(world, position, 1000..10000);
        TerrainTile::Complex(ComplexTerrainTile::Coal(value))
    }

    fn priority(&self) -> (priority: u8) {
        25
    }

    fn name(&self) -> (name: &'static str) {
        "Coal"
    }

    fn threshold(&self) -> (hundredths: u8) {
        75
    }

    fn noise_scale(&self) -> (ten_thousandths: u16) {
        333
    }
}

} // verus!
