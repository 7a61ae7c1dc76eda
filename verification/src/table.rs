//! The chunks that are loaded: one entry for each coordinate, filled from the
//! store or by the generator the first time the coordinate is asked for.

use vstd::prelude::*;
use hashbrown::HashMap;
use crate::generator::{TileReading, WorldGenerator};
use crate::layers::in_range;
use crate::manager::{issued_by, AcquiredDatabaseConnection, DatabaseManager};
use crate::records::{Chunk, ChunkError, ComplexTile, StoreError};
use crate::tile::TerrainTile;
use crate::world::World;

verus! {

/// The handle of something that another part of the program owns and shows
/// for a chunk. The table keeps it and never looks inside.
#[derive(Debug, Clone, Copy, PartialEq, Eq, Structural)]
pub struct EntityId(pub u64);

/// A chunk in the table: its tiles, and the handle of what is shown for it,
/// if anything is.
pub struct LoadedChunk {
    pub chunk: [TerrainTile; 4096],
    pub spawned_entity: Option<EntityId>,
}

/// What a `ChunkEntries` holds: the entry under each coordinate.
pub uninterp spec fn chunk_entries(held: ChunkEntries) -> Map<(i64, i64), LoadedChunk>;

/// The entries of the table, each under its chunk's coordinate. A hash map
/// keeps them.
#[verifier::external_body]
pub struct ChunkEntries {
    entries: HashMap<[i64; 2], LoadedChunk>,
}

/// No entry under any coordinate.
pub open spec fn no_chunks() -> Map<(i64, i64), LoadedChunk> {
    Map::empty()
}

impl ChunkEntries {
    /// `hashbrown::HashMap::new`: a map that holds nothing.
    #[verifier::external_body]
    fn empty() -> (held: Self)
        ensures
            chunk_entries(held) == no_chunks(),
    {
        ChunkEntries { entries: HashMap::new() }
    }

    /// `hashbrown::HashMap::contains_key`.
    #[verifier::external_body]
    fn holds(&self, x: i64, y: i64) -> (held: bool)
        ensures
            held == chunk_entries(*self).dom().contains((x, y)),
    {
        self.entries.contains_key(&[x, y])
    }

    /// `hashbrown::HashMap::get`: the entry under `(x, y)`, if there is one.
    #[verifier::external_body]
    fn find(&self, x: i64, y: i64) -> (entry: Option<&LoadedChunk>)
        ensures
            entry is Some == chunk_entries(*self).dom().contains((x, y)),
            entry is Some ==> *entry->0 == chunk_entries(*self)[(x, y)],
    {
        self.entries.get(&[x, y])
    }

    /// `hashbrown::HashMap::get_mut`: the entry under `(x, y)`, if there is
    /// one, to be changed in place. Every other entry stays as it is.
    #[verifier::external_body]
    fn find_mut(&mut self, x: i64, y: i64) -> (entry: Option<&mut LoadedChunk>)
        ensures
            entry is Some == chunk_entries(*old(self)).dom().contains((x, y)),
            entry is Some ==> *entry->0 == chunk_entries(*old(self))[(x, y)],
            entry is Some ==> chunk_entries(*final(self)) == chunk_entries(*old(self)).insert(
                (x, y),
                *final(entry->0),
            ),
            entry is None ==> chunk_entries(*final(self)) == chunk_entries(*old(self)),
    {
        self.entries.get_mut(&[x, y])
    }

    /// `hashbrown::HashMap::insert`: afterwards `entry` is found under
    /// `(x, y)`, in place of what was there, and every other entry is as before.
    #[verifier::external_body]
    fn put(&mut self, x: i64, y: i64, entry: LoadedChunk)
        ensures
            chunk_entries(*final(self)) == chunk_entries(*old(self)).insert((x, y), entry),
    {
        self.entries.insert([x, y], entry);
    }

    /// `hashbrown::HashMap::remove`: takes out the entry under `(x, y)` and
    /// hands it over, if there is one. Every other entry stays.
    #[verifier::external_body]
    fn take(&mut self, x: i64, y: i64) -> (entry: Option<LoadedChunk>)
        ensures
            chunk_entries(*final(self)) == chunk_entries(*old(self)).remove((x, y)),
            entry is Some == chunk_entries(*old(self)).dom().contains((x, y)),
            entry is Some ==> entry->0 == chunk_entries(*old(self))[(x, y)],
    {
        self.entries.remove(&[x, y])
    }
}

/// What is due next for a coordinate that was asked for.
#[derive(Debug, Clone, Copy, PartialEq, Eq, Structural)]
pub enum ChunkStep {
    /// The entry is in the table.
    Ready,
    /// The store is to be asked for the chunk's record and rows, and the answer
    /// handed to `restore`.
    Load,
    /// The noise field is to be read over the chunk, and the readings handed
    /// to `gen`. With `persist` the generated chunk is then to be stored, as
    /// `Chunk::save_chunk` writes it.
    Generate { persist: bool },
}

/// The table of loaded chunks. It holds one entry for a coordinate at most.
pub struct LoadedChunkTable {
    entries: ChunkEntries,
}

impl View for LoadedChunkTable {
    type V = Map<(i64, i64), LoadedChunk>;

    closed spec fn view(&self) -> Map<(i64, i64), LoadedChunk> {
        chunk_entries(self.entries)
    }
}

impl Default for LoadedChunkTable {
    fn default() -> (table: Self)
        ensures
            table@ == no_chunks(),
    {
        LoadedChunkTable { entries: ChunkEntries::empty() }
    }
}

impl LoadedChunkTable {
    /// What is due first for `position`: nothing if its entry is there, a
    /// look into the store if a slot of the store is held, and generation
    /// without storing if none is.
    pub open spec fn first_step(
        entries: Map<(i64, i64), LoadedChunk>,
        slot_held: bool,
        position: (i64, i64),
    ) -> ChunkStep {
        if entries.dom().contains(position) {
            ChunkStep::Ready
        } else if slot_held {
            ChunkStep::Load
        } else {
            ChunkStep::Generate { persist: false }
        }
    }

    /// What is due once the store has answered for a coordinate that has no
    /// entry: nothing more if the chunk was read back, generation and storing
    /// if the store failed or holds no record, and nothing at all, but the
    /// error, for a malformed record.
    pub open spec fn step_after_load(read: Result<Seq<TerrainTile>, ChunkError>) -> Result<
        ChunkStep,
        ChunkError,
    > {
        match read {
            Ok(_) => Ok(ChunkStep::Ready),
            Err(ChunkError::ChunkMalformed) => Err(ChunkError::ChunkMalformed),
            Err(ChunkError::Store(_)) => Ok(ChunkStep::Generate { persist: true }),
        }
    }

    /// Whether `after` is `before` with a new entry under `position` that
    /// holds `tiles` and has nothing shown for it.
    pub open spec fn filled(
        after: Map<(i64, i64), LoadedChunk>,
        before: Map<(i64, i64), LoadedChunk>,
        position: (i64, i64),
        tiles: Seq<TerrainTile>,
    ) -> bool {
        &&& after.dom().contains(position)
        &&& after == before.insert(position, after[position])
        &&& after[position].chunk@ == tiles
        &&& after[position].spawned_entity is None
    }

    /// Says what is due for the chunk at `position`, given the slot of the
    /// store that is held, if one is. Nothing is changed or fetched.
    pub fn get(&self, conn: &Option<AcquiredDatabaseConnection<'_>>, position: [i64; 2]) -> (step:
        ChunkStep)
        ensures
            step == Self::first_step(self@, conn is Some, (position[0], position[1])),
    {
        if self.entries.holds(position[0], position[1]) {
            ChunkStep::Ready
        } else if conn.is_some() {
            ChunkStep::Load
        } else {
            ChunkStep::Generate { persist: false }
        }
    }

    /// Tries for a slot of the store and says what is due for the chunk at
    /// `position` with what it got. A store without slots is never asked: the
    /// chunk is there, or it is generated and not stored.
    pub fn request_load<'a>(&self, database: &'a DatabaseManager, position: [i64; 2]) -> (request:
        (Option<AcquiredDatabaseConnection<'a>>, ChunkStep))
        ensures
            request.1 == Self::first_step(self@, request.0 is Some, (position[0], position[1])),
            database.capacity() == 0 ==> request.0 is None && request.1 != ChunkStep::Load
                && request.1 != (ChunkStep::Generate { persist: true }),
            request.0 is Some ==> database.counts_on(issued_by(request.0->0.permit())),
    {
        let conn = database.try_take().ok();
        let step = self.get(&conn, position);
        (conn, step)
    }

    /// Takes in what the store answered for the chunk at `position`: `found`
    /// for its record and `complex_tiles` for its rows. An entry that is there
    /// already stays, and the answer is set aside. Otherwise a chunk that reads
    /// back well gets its entry; with a malformed record the error is handed
    /// on and the table stays as it is; with any other failure the chunk is to
    /// be generated and stored.
    pub fn restore(
        &mut self,
        position: [i64; 2],
        found: Result<Chunk, StoreError>,
        complex_tiles: Result<Vec<ComplexTile>, StoreError>,
    ) -> (step: Result<ChunkStep, ChunkError>)
        ensures
            old(self)@.dom().contains((position[0], position[1])) ==> step == Ok::<
                ChunkStep,
                ChunkError,
            >(ChunkStep::Ready) && final(self)@ == old(self)@,
            !old(self)@.dom().contains((position[0], position[1])) ==> step
                == Self::step_after_load(
                Chunk::read_back(found, complex_tiles, position[0], position[1]),
            ) && match Chunk::read_back(found, complex_tiles, position[0], position[1]) {
                Ok(tiles) => Self::filled(
                    final(self)@,
                    old(self)@,
                    (position[0], position[1]),
                    tiles,
                ),
                Err(_) => final(self)@ == old(self)@,
            },
    {
        if self.entries.holds(position[0], position[1]) {
            return Ok(ChunkStep::Ready);
        }
        match Chunk::from_xy(found, complex_tiles, position[0], position[1]) {
            Ok(chunk) => {
                self.entries.put(
                    position[0],
                    position[1],
                    LoadedChunk { chunk, spawned_entity: None },
                );
                Ok(ChunkStep::Ready)
            },
            Err(ChunkError::ChunkMalformed) => Err(ChunkError::ChunkMalformed),
            Err(ChunkError::Store(_)) => Ok(ChunkStep::Generate { persist: true }),
        }
    }

    /// Generates the chunk at `position` from `readings` and puts it into the
    /// table, in place of an entry that may be there.
    pub fn gen(
        &mut self,
        generator: &WorldGenerator,
        world: &World,
        position: [i64; 2],
        readings: &Vec<TileReading>,
    )
        requires
            World::chunk_in_reach(position),
            World::survey_fits(generator, readings@),
        ensures
            Self::filled(
                final(self)@,
                old(self)@,
                (position[0], position[1]),
                World::chunk_tiles(world.seed, generator, position, readings@),
            ),
            forall|index: int|
                0 <= index < 4096 ==> in_range(
                    #[trigger] final(self)@[(position[0], position[1])].chunk@[index],
                ),
    {
        let chunk = world.get_chunk(generator, position, readings);
        self.entries.put(position[0], position[1], LoadedChunk { chunk, spawned_entity: None });
    }

    /// Notes `ent` as what is shown for the chunk at `position`. Nothing
    /// happens if the chunk has no entry.
    pub fn update_entity(&mut self, position: [i64; 2], ent: EntityId)
        ensures
            final(self)@ == if old(self)@.dom().contains((position[0], position[1])) {
                old(self)@.insert(
                    (position[0], position[1]),
                    LoadedChunk {
                        chunk: old(self)@[(position[0], position[1])].chunk,
                        spawned_entity: Some(ent),
                    },
                )
            } else {
                old(self)@
            },
    {
        if let Some(loaded_chunk) = self.entries.find_mut(position[0], position[1]) {
            loaded_chunk.spawned_entity = Some(ent);
        }
    }

    /// The entry of the chunk at `position`, to be changed in place.
    pub fn get_mut_if_exists(&mut self, position: [i64; 2]) -> (entry: Option<&mut LoadedChunk>)
        ensures
            entry is Some == old(self)@.dom().contains((position[0], position[1])),
            entry is Some ==> *entry->0 == old(self)@[(position[0], position[1])],
            entry is Some ==> final(self)@ == old(self)@.insert(
                (position[0], position[1]),
                *final(entry->0),
            ),
            entry is None ==> final(self)@ == old(self)@,
    {
        self.entries.find_mut(position[0], position[1])
    }

    /// The entry of the chunk at `position`.
    pub fn get_if_exists(&self, position: [i64; 2]) -> (entry: Option<&LoadedChunk>)
        ensures
            entry is Some == self@.dom().contains((position[0], position[1])),
            entry is Some ==> *entry->0 == self@[(position[0], position[1])],
    {
        self.entries.find(position[0], position[1])
    }

    /// The tile at world position `position`, read from the entry of the chunk
    /// that it lies in, if that chunk has one.
    pub open spec fn tile_in(entries: Map<(i64, i64), LoadedChunk>, position: [i64; 2]) -> Option<
        TerrainTile,
    > {
        let (chunk, index) = World::chunk_of(position);
        if entries.dom().contains((chunk.0 as i64, chunk.1 as i64)) {
            Some(entries[(chunk.0 as i64, chunk.1 as i64)].chunk@[index])
        } else {
            None
        }
    }

    /// The tile at world position `position`, if its chunk is loaded.
    pub fn tile_at(&self, position: [i64; 2]) -> (tile: Option<TerrainTile>)
        ensures
            tile == Self::tile_in(self@, position),
    {
        let (chunk, index) = World::get_chunk_and_index(position);
        match self.entries.find(chunk[0], chunk[1]) {
            Some(entry) => Some(entry.chunk[index]),
            None => None,
        }
    }

    /// The chunks to ask for when the chunk at `position` comes into view: none
    /// if it is loaded, and otherwise the sixteen chunks from two before it to
    /// one behind it in both directions, column by column.
    pub open spec fn in_view(entries: Map<(i64, i64), LoadedChunk>, position: [i64; 2]) -> Seq<
        (int, int),
    > {
        if entries.dom().contains((position[0], position[1])) {
            Seq::empty()
        } else {
            Seq::new(16, |i: int| (position[0] - 2 + i / 4, position[1] - 2 + i % 4))
        }
    }

    /// Lists the chunks to load around the chunk at `position`.
    pub fn chunks_in_view(&self, position: [i64; 2]) -> (chunks: Vec<[i64; 2]>)
        requires
            i64::MIN + 2 <= position[0] <= i64::MAX - 2,
            i64::MIN + 2 <= position[1] <= i64::MAX - 2,
        ensures
            chunks@.len() == Self::in_view(self@, position).len(),
            forall|i: int|
                0 <= i < chunks@.len() ==> (#[trigger] chunks@[i][0] as int, chunks@[i][1] as int)
                    == Self::in_view(self@, position)[i],
    {
        let mut chunks: Vec<[i64; 2]> = Vec::new();
        if self.entries.holds(position[0], position[1]) {
            return chunks;
        }
        let mut column: i64 = 0;
        while column < 4
            invariant
                0 <= column <= 4,
                i64::MIN + 2 <= position[0] <= i64::MAX - 2,
                i64::MIN + 2 <= position[1] <= i64::MAX - 2,
                chunks@.len() == 4 * column,
                forall|i: int|
                    0 <= i < chunks@.len() ==> (#[trigger] chunks@[i][0] as int, chunks@[i][1] as int)
                        == (position[0] - 2 + i / 4, position[1] - 2 + i % 4),
            decreases 4 - column,
        {
            let mut row: i64 = 0;
            while row < 4
                invariant
                    0 <= row <= 4,
                    0 <= column < 4,
                    i64::MIN + 2 <= position[0] <= i64::MAX - 2,
                    i64::MIN + 2 <= position[1] <= i64::MAX - 2,
                    chunks@.len() == 4 * column + row,
                    forall|i: int|
                        0 <= i < chunks@.len() ==> (#[trigger] chunks@[i][0] as int, chunks@[i][1] as int)
                            == (position[0] - 2 + i / 4, position[1] - 2 + i % 4),
                decreases 4 - row,
            {
                chunks.push([position[0] - 2 + column, position[1] - 2 + row]);
                row += 1;
            }
            column += 1;
        }
        chunks
    }

    /// Takes the chunk at `position` out of the table and hands its entry
    /// over, so that what is shown for it can be let go.
    pub fn remove(&mut self, position: [i64; 2]) -> (entry: Option<LoadedChunk>)
        ensures
            final(self)@ == old(self)@.remove((position[0], position[1])),
            entry is Some == old(self)@.dom().contains((position[0], position[1])),
            entry is Some ==> entry->0 == old(self)@[(position[0], position[1])],
    {
        self.entries.take(position[0], position[1])
    }
}

/// A tile of a loaded chunk is found at its world position: `tile_at` reads
/// what `get_tile_position_from_index` names.
pub proof fn lemma_tile_at_reads_the_chunk(
    entries: Map<(i64, i64), LoadedChunk>,
    chunk: [i64; 2],
    index: usize,
    position: [i64; 2],
)
    requires
        index < World::CHUNK_SIZE,
        World::tile_position(chunk, index) == (position[0] as int, position[1] as int),
    ensures
        LoadedChunkTable::tile_in(entries, position) == if entries.dom().contains(
            (chunk[0], chunk[1]),
        ) {
            Some(entries[(chunk[0], chunk[1])].chunk@[index as int])
        } else {
            None
        },
{
    crate::world::lemma_position_round_trip(chunk, index, position);
}

/// Without a slot of the store nothing is asked of the store and nothing is
/// stored: the entry is there, or the chunk is generated and kept in the table
/// alone. No step of that can fail.
pub proof fn lemma_without_slot_no_store(entries: Map<(i64, i64), LoadedChunk>, position: (i64, i64))
    ensures
        LoadedChunkTable::first_step(entries, false, position) == if entries.dom().contains(
            position,
        ) {
            ChunkStep::Ready
        } else {
            ChunkStep::Generate { persist: false }
        },
        LoadedChunkTable::first_step(entries, false, position) != ChunkStep::Load,
        LoadedChunkTable::first_step(entries, false, position) != (ChunkStep::Generate {
            persist: true,
        }),
{
}

/// A chunk that was taken out of the table is not there when it is asked for
/// again: without a slot of the store it is generated anew, and the entry that
/// `gen` then makes has nothing shown for it, whatever the old one had.
pub proof fn lemma_removed_chunk_is_generated_again(
    entries: Map<(i64, i64), LoadedChunk>,
    position: (i64, i64),
    after: Map<(i64, i64), LoadedChunk>,
    tiles: Seq<TerrainTile>,
)
    requires
        LoadedChunkTable::filled(after, entries.remove(position), position, tiles),
    ensures
        LoadedChunkTable::first_step(entries.remove(position), false, position) == (
        ChunkStep::Generate { persist: false }),
        after[position].chunk@ == tiles,
        after[position].spawned_entity is None,
        LoadedChunkTable::first_step(after, false, position) == ChunkStep::Ready,
{
}

/// A malformed record leaves the table as it was: whatever `restore` returns
/// for it, no entry comes of it.
pub proof fn lemma_malformed_record_fills_nothing(
    record: Chunk,
    complex_tiles: Result<Vec<ComplexTile>, StoreError>,
    position: (i64, i64),
)
    requires
        record.tiles@.len() != World::CHUNK_SIZE,
    ensures
        Chunk::read_back(Ok(record), complex_tiles, position.0, position.1) is Err,
        LoadedChunkTable::step_after_load(
            Chunk::read_back(Ok(record), complex_tiles, position.0, position.1),
        ) == Err::<ChunkStep, ChunkError>(ChunkError::ChunkMalformed),
{
}

} // verus!
