//! The world's configuration and the two coordinate spaces of its tiles: the
//! absolute position of a tile in the world, and its place inside a chunk.

use vstd::prelude::*;
use chrono::{NaiveDateTime, Utc};
use rand::{thread_rng, Rng};
use vstd::std_specs::convert::FromSpecImpl;
use crate::records::StoreError;

verus! {

/// A calendar date and time without a zone. The library carries it and never
/// looks inside.
#[verifier::external_type_specification]
#[verifier::external_body]
pub struct ExNaiveDateTime(NaiveDateTime);

/// The world as it is stored: one row.
#[derive(Clone, Copy, Debug)]
pub struct WorldObj {
    pub id: i32,
    pub origin_time: NaiveDateTime,
    pub seed: i64,
}

/// The world a running server works with. Nothing in it changes after it is
/// made; the seed fixes all terrain.
#[derive(Clone, Copy, Debug)]
pub struct World {
    pub id: i32,
    pub origin_time: NaiveDateTime,
    pub seed: i64,
}

/// A world that is about to be stored: the store gives it its id.
#[derive(Clone, Copy, Debug)]
pub struct WorldBuilder {
    origin_time: NaiveDateTime,
    seed: i64,
}

/// What is to be done about the world when the server starts.
#[derive(Clone, Copy, Debug)]
pub enum WorldStartup {
    /// The stored world is the one to run.
    Keep(World),
    /// The stored world has another seed than the one asked for: the store is
    /// to be cleared of it, and the new world saved.
    Replace(WorldBuilder),
    /// No world is stored: the new one is to be saved.
    Create(WorldBuilder),
}

/// `chrono::Utc::now`, without its zone: the time of the call, of which
/// nothing is known beforehand.
#[verifier::external_body]
fn now() -> (time: NaiveDateTime) {
    Utc::now().naive_utc()
}

/// `rand::Rng::gen` on the thread's own generator: any number.
#[verifier::external_body]
pub(crate) fn any_seed() -> (seed: i64) {
    thread_rng().gen()
}

impl From<WorldObj> for World {
    fn from(value: WorldObj) -> (world: World) {
        World { id: value.id, origin_time: value.origin_time, seed: value.seed }
    }
}

impl FromSpecImpl<WorldObj> for World {
    open spec fn obeys_from_spec() -> bool {
        true
    }

    open spec fn from_spec(value: WorldObj) -> World {
        World::of_row(value)
    }
}

impl WorldBuilder {
    /// The seed the world will have.
    pub closed spec fn seed(&self) -> i64 {
        self.seed
    }

    /// The time the world counts from.
    pub closed spec fn origin_time(&self) -> NaiveDateTime {
        self.origin_time
    }

    /// The row to store for the world, which has no id yet.
    pub fn row(&self) -> (row: (NaiveDateTime, i64))
        ensures
            row == (self.origin_time(), self.seed()),
    {
        (self.origin_time, self.seed)
    }

    /// Settles which world runs, given what the store holds. A world that is
    /// stored already is the one, and nothing is written. Otherwise `Err` says
    /// that this one is to be inserted, and `inserted` takes what comes back.
    pub fn save(self, found: Result<WorldObj, StoreError>) -> (saved: Result<World, WorldBuilder>)
        ensures
            saved == match found {
                Ok(found_world) => Ok::<World, WorldBuilder>(World::of_row(found_world)),
                Err(_) => Err::<World, WorldBuilder>(self),
            },
    {
        match found {
            Ok(found_world) => Ok(World::from(found_world)),
            Err(_) => Err(self),
        }
    }

    /// The world that runs after the store took it in: the first of the rows
    /// that the store handed back.
    pub fn inserted(new_world: &Vec<WorldObj>) -> (world: World)
        requires
            new_world@.len() > 0,
        ensures
            world == World::of_row(new_world@[0]),
    {
        World::from(new_world[0])
    }
}

impl World {
    /// The world that a stored row stands for.
    pub open spec fn of_row(row: WorldObj) -> World {
        World { id: row.id, origin_time: row.origin_time, seed: row.seed }
    }

    /// A new world with a seed of its own, counting from now.
    pub fn build() -> (builder: WorldBuilder) {
        WorldBuilder::starting(now(), any_seed())
    }

    /// A new world with the seed `seed`, counting from now.
    pub fn build_with_seed(seed: i64) -> (builder: WorldBuilder)
        ensures
            builder.seed() == seed,
    {
        WorldBuilder::starting(now(), seed)
    }

    /// The world that the store holds, if it holds one.
    pub fn from_db(found: Result<WorldObj, StoreError>) -> (world: Option<World>)
        ensures
            world == match found {
                Ok(row) => Some(World::of_row(row)),
                Err(_) => None::<World>,
            },
    {
        match found {
            Ok(row) => Some(World::from(row)),
            Err(_) => None,
        }
    }

    /// What `startup` comes to for a new world `builder`.
    pub open spec fn startup_with(found: Option<World>, seed: i64, builder: WorldBuilder)
        -> WorldStartup {
        match found {
            Some(world) => if world.seed == seed {
                WorldStartup::Keep(world)
            } else {
                WorldStartup::Replace(builder)
            },
            None => WorldStartup::Create(builder),
        }
    }

    /// Settles which world the server runs: the stored one if its seed is the
    /// seed asked for, and a new world with that seed otherwise, which takes
    /// the place of a stored one with another seed.
    pub fn startup(found: Option<World>, seed: i64) -> (startup: WorldStartup)
        ensures
            exists|builder: WorldBuilder|
                builder.seed() == seed && startup == Self::startup_with(found, seed, builder),
    {
        let builder = World::build_with_seed(seed);
        let startup = match found {
            Some(world) => if world.seed == seed {
                WorldStartup::Keep(world)
            } else {
                WorldStartup::Replace(builder)
            },
            None => WorldStartup::Create(builder),
        };
        assert(builder.seed() == seed && startup == Self::startup_with(found, seed, builder));
        startup
    }

    /// The seed of the world's noise field: the low 32 bits of the world's seed.
    pub fn noise_seed(&self) -> (seed: u32)
        ensures
            seed == self.seed as u32,
    {
        #[verifier::truncate]
        (self.seed as u32)
    }

    /// Tiles along one side of a chunk.
    pub const CHUNK_SIDE_LENGTH: usize = 64;

    /// Tiles in a chunk.
    pub const CHUNK_SIZE: usize = 4096;

    /// The world position of the tile at `index` of chunk `chunk`: the chunk's
    /// corner plus the tile's offset, `index % 64` across and `index / 64` down.
    pub open spec fn tile_position(chunk: [i64; 2], index: usize) -> (int, int) {
        (chunk[0] * 64 + index % 64, chunk[1] * 64 + index / 64)
    }

    /// Whether the world position of tile `index` of chunk `chunk`, and the
    /// chunk's corner, can be written as `i64`.
    pub open spec fn position_in_reach(chunk: [i64; 2], index: usize) -> bool {
        &&& i64::MIN <= chunk[0] * 64
        &&& chunk[0] * 64 + index % 64 <= i64::MAX
        &&& i64::MIN <= chunk[1] * 64
        &&& chunk[1] * 64 + index / 64 <= i64::MAX
    }

    /// Whether every tile of chunk `chunk` has a world position in `i64`.
    pub open spec fn chunk_in_reach(chunk: [i64; 2]) -> bool {
        &&& i64::MIN <= chunk[0] * 64
        &&& chunk[0] * 64 + 63 <= i64::MAX
        &&& i64::MIN <= chunk[1] * 64
        &&& chunk[1] * 64 + 63 <= i64::MAX
    }

    /// Tells whether every tile of chunk `chunk` has a world position in `i64`.
    pub fn check_chunk(chunk: [i64; 2]) -> (in_reach: bool)
        ensures
            in_reach == Self::chunk_in_reach(chunk),
    {
        let lowest: i64 = i64::MIN / 64;
        let highest: i64 = i64::MAX / 64;
        lowest <= chunk[0] && chunk[0] <= highest && lowest <= chunk[1] && chunk[1] <= highest
    }

    /// The place of the tile at `index` inside its chunk.
    pub open spec fn local_position(index: usize) -> (int, int) {
        ((index % 64) as int, (index / 64) as int)
    }

    /// The index of the tile at offset `(x, y)` inside its chunk.
    pub open spec fn chunk_index(x: int, y: int) -> int {
        y * 64 + x
    }

    /// Returns the position of a tile given its index in the chunk list.
    pub fn get_tile_position_from_index(chunk: [i64; 2], index: usize) -> (position: [i64; 2])
        requires
            Self::position_in_reach(chunk, index),
        ensures
            (position[0] as int, position[1] as int) == Self::tile_position(chunk, index),
    {
        let x: i64 = (index % World::CHUNK_SIDE_LENGTH) as i64 + chunk[0] * 64;
        let y: i64 = (index / World::CHUNK_SIDE_LENGTH) as i64 + chunk[1] * 64;
        [x, y]
    }

    /// Returns the position of a tile from within the chunk. Both offsets are
    /// cut to 32 bits, which loses nothing for an index below 2^37.
    pub fn get_localized_tile_position_form_index(index: usize) -> (position: [i32; 2])
        ensures
            position[0] == index % 64,
            position[1] == (index / 64) as i32,
            index / 64 <= i32::MAX ==> (position[0] as int, position[1] as int)
                == Self::local_position(index),
    {
        let x: i32 = (index % World::CHUNK_SIDE_LENGTH) as i32;
        let y: i32 = #[verifier::truncate]
        ((index / World::CHUNK_SIDE_LENGTH) as i32);
        [x, y]
    }

    /// The chunk that the tile at world position `position` lies in, and the
    /// tile's index in that chunk: the position divided by the side of a chunk,
    /// rounded down, and what is left over.
    pub open spec fn chunk_of(position: [i64; 2]) -> ((int, int), int) {
        (
            (position[0] / 64, position[1] / 64),
            Self::chunk_index((position[0] % 64) as int, (position[1] % 64) as int),
        )
    }

    /// Finds the chunk that the tile at world position `position` lies in, and
    /// the tile's index in it.
    pub fn get_chunk_and_index(position: [i64; 2]) -> (found: ([i64; 2], usize))
        ensures
            ((found.0[0] as int, found.0[1] as int), found.1 as int) == Self::chunk_of(position),
            found.1 < Self::CHUNK_SIZE,
            Self::chunk_in_reach(found.0),
            Self::tile_position(found.0, found.1) == (position[0] as int, position[1] as int),
    {
        let (chunk_x, x) = floor_by_side(position[0]);
        let (chunk_y, y) = floor_by_side(position[1]);
        ([chunk_x, chunk_y], y * World::CHUNK_SIDE_LENGTH + x)
    }

    /// Returns the index of a tile in a chunk list given its offset coordinates.
    pub fn get_chunk_index(offset: [u32; 2]) -> (index: usize)
        requires
            Self::chunk_index(offset[0] as int, offset[1] as int) <= usize::MAX,
        ensures
            index == Self::chunk_index(offset[0] as int, offset[1] as int),
    {
        offset[1] as usize * World::CHUNK_SIDE_LENGTH + offset[0] as usize
    }
}

/// Divides a world coordinate by the side of a chunk, rounding down, and hands
/// back the quotient with what is left over.
fn floor_by_side(coordinate: i64) -> (parts: (i64, usize))
    ensures
        parts.0 == coordinate / 64,
        parts.1 == coordinate % 64,
{
    if coordinate >= 0 {
        (coordinate / 64, (coordinate % 64) as usize)
    } else {
        // for a negative coordinate, count back from -1
        let back: i64 = -(coordinate + 1);
        (-(back / 64) - 1, (63 - back % 64) as usize)
    }
}

/// The chunk and index found for a world position are those of the tile that
/// lies there: for every tile, `get_chunk_and_index` undoes
/// `get_tile_position_from_index`.
pub proof fn lemma_position_round_trip(chunk: [i64; 2], index: usize, position: [i64; 2])
    requires
        index < World::CHUNK_SIZE,
        World::tile_position(chunk, index) == (position[0] as int, position[1] as int),
    ensures
        World::chunk_of(position) == ((chunk[0] as int, chunk[1] as int), index as int),
{
}

/// A tile's index is found again from its world position: take the chunk's
/// corner away from the position of tile `index` and the offsets that are left
/// index the same tile. The same holds of the tile's place inside the chunk.
pub proof fn lemma_coordinate_round_trip(chunk: [i64; 2], index: usize)
    requires
        index < World::CHUNK_SIZE,
    ensures
        ({
            let (x, y) = World::tile_position(chunk, index);
            &&& 0 <= x - chunk[0] * 64 < 64
            &&& 0 <= y - chunk[1] * 64 < 64
            &&& World::chunk_index(x - chunk[0] * 64, y - chunk[1] * 64) == index
        }),
        ({
            let (x, y) = World::local_position(index);
            &&& 0 <= x < 64
            &&& 0 <= y < 64
            &&& World::chunk_index(x, y) == index
        }),
        World::chunk_in_reach(chunk) ==> World::position_in_reach(chunk, index),
{
}

/// Every offset inside a chunk names one tile, and that tile's place is the
/// offset.
pub proof fn lemma_index_round_trip(x: int, y: int)
    requires
        0 <= x < 64,
        0 <= y < 64,
    ensures
        0 <= World::chunk_index(x, y) < World::CHUNK_SIZE,
        World::local_position(World::chunk_index(x, y) as usize) == (x, y),
{
}

impl WorldBuilder {
    /// A new world that counts from `origin_time` and has the seed `seed`.
    pub fn starting(origin_time: NaiveDateTime, seed: i64) -> (builder: WorldBuilder)
        ensures
            builder.origin_time() == origin_time,
            builder.seed() == seed,
    {
        WorldBuilder { origin_time, seed }
    }
}

} // verus!
