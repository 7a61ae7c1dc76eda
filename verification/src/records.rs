//! The stored form of a chunk: one record holding the id of every tile, and
//! one row for the magnitude of every deposit.

use vstd::prelude::*;
use hashbrown::HashMap;
use crate::tile::{StaticTerrainTile, TerrainTile};
use crate::world::World;

verus! {

/// Why the store handed nothing over.
#[derive(Debug, Clone, Copy, PartialEq, Eq, Structural)]
pub enum StoreError {
    /// The store holds nothing under the key.
    NotFound,
    /// The store could not be asked, or failed while answering.
    Failed,
}

/// Why a stored chunk could not be read back.
#[derive(Debug, Clone, Copy, PartialEq, Eq, Structural)]
pub enum ChunkError {
    /// The record does not hold one id for each tile of a chunk.
    ChunkMalformed,
    /// The store failed before the record or its rows were read.
    Store(StoreError),
}

/// The record of one chunk: its coordinate and the id of each of its tiles.
#[derive(Clone, Debug)]
pub struct Chunk {
    pub x: i64,
    pub y: i64,
    pub tiles: Vec<u8>,
}

/// The row of one deposit: the chunk it lies in, its place inside the chunk,
/// and its magnitude.
#[derive(Debug, Clone, Copy, PartialEq, Eq, Structural)]
pub struct ComplexTile {
    pub chunk_x: i64,
    pub chunk_y: i64,
    pub x: i32,
    pub y: i32,
    pub metadata: i64,
}

/// What a `ComplexTileTable` holds: the magnitude under each place.
pub uninterp spec fn complex_tile_entries(table: ComplexTileTable) -> Map<(i32, i32), u32>;

/// The magnitudes of one chunk's deposits, each under its place inside the
/// chunk. A hash map keeps them.
#[verifier::external_body]
pub struct ComplexTileTable {
    entries: HashMap<[i32; 2], u32>,
}

impl View for ComplexTileTable {
    type V = Map<(i32, i32), u32>;

    open spec fn view(&self) -> Map<(i32, i32), u32> {
        complex_tile_entries(*self)
    }
}

/// No magnitude under any place.
pub open spec fn no_magnitudes() -> Map<(i32, i32), u32> {
    Map::empty()
}

/// What is found under `place`.
pub open spec fn magnitude_at(entries: Map<(i32, i32), u32>, place: (i32, i32)) -> Option<u32> {
    if entries.dom().contains(place) {
        Some(entries[place])
    } else {
        None
    }
}

impl ComplexTileTable {
    /// `hashbrown::HashMap::new`: a map that holds nothing.
    #[verifier::external_body]
    fn empty() -> (table: Self)
        ensures
            complex_tile_entries(table) == no_magnitudes(),
    {
        ComplexTileTable { entries: HashMap::new() }
    }

    /// `hashbrown::HashMap::insert`: afterwards `metadata` is found under
    /// `(x, y)`, in place of what was there, and every other place is as before.
    #[verifier::external_body]
    fn put(&mut self, x: i32, y: i32, metadata: u32)
        ensures
            complex_tile_entries(*final(self)) == complex_tile_entries(*old(self)).insert(
                (x, y),
                metadata,
            ),
    {
        self.entries.insert([x, y], metadata);
    }

    /// `hashbrown::HashMap::get`: the magnitude under `(x, y)`, if there is one.
    #[verifier::external_body]
    fn find(&self, x: i32, y: i32) -> (metadata: Option<u32>)
        ensures
            metadata == magnitude_at(complex_tile_entries(*self), (x, y)),
    {
        self.entries.get(&[x, y]).copied()
    }

    /// The magnitude kept for the tile at `position` inside the chunk.
    pub fn get(&self, position: [i32; 2]) -> (metadata: Option<u32>)
        ensures
            metadata == magnitude_at(self@, (position[0], position[1])),
    {
        self.find(position[0], position[1])
    }
}

impl ComplexTile {
    /// Whether the row belongs to chunk `(x_pos, y_pos)`.
    pub open spec fn lies_in(self, x_pos: i64, y_pos: i64) -> bool {
        self.chunk_x == x_pos && self.chunk_y == y_pos
    }

    /// The magnitudes that `rows` give for chunk `(x_pos, y_pos)`. A row of
    /// another chunk counts for nothing, and of two rows for one place the
    /// later one counts. A magnitude is the row's number cut to 32 bits.
    pub open spec fn magnitudes(rows: Seq<ComplexTile>, x_pos: i64, y_pos: i64) -> Map<
        (i32, i32),
        u32,
    >
        decreases rows.len(),
    {
        if rows.len() == 0 {
            Map::empty()
        } else {
            let earlier = Self::magnitudes(rows.drop_last(), x_pos, y_pos);
            let row = rows.last();
            if row.lies_in(x_pos, y_pos) {
                earlier.insert((row.x, row.y), row.metadata as u32)
            } else {
                earlier
            }
        }
    }

    /// The row that keeps magnitude `metadata` of the tile at `index` of chunk
    /// `(x_pos, y_pos)`.
    pub open spec fn row_of(x_pos: i64, y_pos: i64, index: int, metadata: u32) -> ComplexTile {
        ComplexTile {
            chunk_x: x_pos,
            chunk_y: y_pos,
            x: (index % 64) as i32,
            y: (index / 64) as i32,
            metadata: metadata as i64,
        }
    }

    /// The rows that keep the magnitudes of `tiles`: one for each deposit, in
    /// the order of the tiles, and none for static terrain.
    pub open spec fn rows(tiles: Seq<TerrainTile>, x_pos: i64, y_pos: i64) -> Seq<ComplexTile>
        decreases tiles.len(),
    {
        if tiles.len() == 0 {
            Seq::empty()
        } else {
            let earlier = Self::rows(tiles.drop_last(), x_pos, y_pos);
            match tiles.last().magnitude() {
                Some(metadata) => earlier.push(
                    Self::row_of(x_pos, y_pos, tiles.len() - 1, metadata),
                ),
                None => earlier,
            }
        }
    }

    /// Gathers the rows read for chunk `(x_pos, y_pos)` into a table of
    /// magnitudes by place.
    pub fn from_chunk(rows: &Vec<ComplexTile>, x_pos: i64, y_pos: i64) -> (table: ComplexTileTable)
        ensures
            table@ == Self::magnitudes(rows@, x_pos, y_pos),
    {
        let mut table = ComplexTileTable::empty();
        let mut taken: usize = 0;
        while taken < rows.len()
            invariant
                taken <= rows.len(),
                table@ == Self::magnitudes(rows@.take(taken as int), x_pos, y_pos),
            decreases rows.len() - taken,
        {
            let row = rows[taken];
            assert(rows@.take(taken + 1).drop_last() == rows@.take(taken as int));
            if row.chunk_x == x_pos && row.chunk_y == y_pos {
                let metadata: u32 = #[verifier::truncate]
                (row.metadata as u32);
                table.put(row.x, row.y, metadata);
            }
            taken += 1;
        }
        assert(rows@.take(taken as int) == rows@);
        table
    }

    /// The rows to store for chunk `(x_pos, y_pos)` whose tiles are `chunk`.
    pub fn save_chunk(x_pos: i64, y_pos: i64, chunk: &[TerrainTile]) -> (inserts: Vec<ComplexTile>)
        ensures
            inserts@ == Self::rows(chunk@, x_pos, y_pos),
    {
        let mut inserts: Vec<ComplexTile> = Vec::new();
        let mut index: usize = 0;
        while index < chunk.len()
            invariant
                index <= chunk.len(),
                inserts@ == Self::rows(chunk@.take(index as int), x_pos, y_pos),
            decreases chunk.len() - index,
        {
            assert(chunk@.take(index + 1).drop_last() == chunk@.take(index as int));
            if let Some(metadata) = chunk[index].get_metadata() {
                let position = World::get_localized_tile_position_form_index(index);
                inserts.push(
                    ComplexTile {
                        chunk_x: x_pos,
                        chunk_y: y_pos,
                        x: position[0],
                        y: position[1],
                        metadata: metadata as i64,
                    },
                );
            }
            index += 1;
        }
        assert(chunk@.take(index as int) == chunk@);
        inserts
    }
}

impl Chunk {
    /// The id of each of `tiles`, in their order.
    pub open spec fn tile_ids(tiles: Seq<TerrainTile>) -> Seq<u8> {
        Seq::new(tiles.len(), |index: int| tiles[index].tile_id())
    }

    /// The tiles that the ids `tiles` stand for, given the magnitudes kept for
    /// the chunk. The magnitude of the tile at `index` is looked up under its
    /// place, `index % 64` across and `index / 64` down. An id that names no
    /// terrain, and a deposit without a magnitude, read as stone.
    pub open spec fn decoded_tiles(tiles: Seq<u8>, magnitudes: Map<(i32, i32), u32>) -> Seq<
        TerrainTile,
    > {
        Seq::new(
            tiles.len(),
            |index: int|
                TerrainTile::decoded(
                    tiles[index],
                    magnitude_at(magnitudes, ((index % 64) as i32, (index / 64) as i32)),
                ),
        )
    }

    /// What reading chunk `(chunk_x, chunk_y)` back comes to, given what the
    /// store answered for its record and for its rows.
    pub open spec fn read_back(
        found: Result<Chunk, StoreError>,
        complex_tiles: Result<Vec<ComplexTile>, StoreError>,
        chunk_x: i64,
        chunk_y: i64,
    ) -> Result<Seq<TerrainTile>, ChunkError> {
        match found {
            Err(error) => Err(ChunkError::Store(error)),
            Ok(chunk) => if chunk.tiles@.len() != World::CHUNK_SIZE {
                Err(ChunkError::ChunkMalformed)
            } else {
                match complex_tiles {
                    Err(error) => Err(ChunkError::Store(error)),
                    Ok(rows) => Ok(
                        Self::decoded_tiles(
                            chunk.tiles@,
                            ComplexTile::magnitudes(rows@, chunk_x, chunk_y),
                        ),
                    ),
                }
            },
        }
    }

    /// Reads chunk `(chunk_x, chunk_y)` back from what the store answered:
    /// `found` for its record and `complex_tiles` for the rows of its deposits.
    /// A failure of the store comes back as it is. A record that does not hold
    /// exactly `CHUNK_SIZE` ids is malformed, whatever the rows are.
    pub fn from_xy(
        found: Result<Chunk, StoreError>,
        complex_tiles: Result<Vec<ComplexTile>, StoreError>,
        chunk_x: i64,
        chunk_y: i64,
    ) -> (read: Result<[TerrainTile; 4096], ChunkError>)
        ensures
            match Self::read_back(found, complex_tiles, chunk_x, chunk_y) {
                Ok(tiles) => read is Ok && read->Ok_0@ == tiles,
                Err(error) => read == Err::<[TerrainTile; 4096], ChunkError>(error),
            },
    {
        let chunk = match found {
            Ok(chunk) => chunk,
            Err(error) => {
                return Err(ChunkError::Store(error));
            },
        };
        if chunk.tiles.len() != World::CHUNK_SIZE {
            return Err(ChunkError::ChunkMalformed);
        }
        let rows = match complex_tiles {
            Ok(rows) => rows,
            Err(error) => {
                return Err(ChunkError::Store(error));
            },
        };
        let complex_tiles = ComplexTile::from_chunk(&rows, chunk_x, chunk_y);

        let mut chunk_array = [TerrainTile::Static(StaticTerrainTile::Stone);4096];
        let mut index: usize = 0;
        while index < World::CHUNK_SIZE
            invariant
                index <= World::CHUNK_SIZE,
                chunk.tiles@.len() == World::CHUNK_SIZE,
                complex_tiles@ == ComplexTile::magnitudes(rows@, chunk_x, chunk_y),
                forall|i: int|
                    0 <= i < index ==> chunk_array@[i] == Self::decoded_tiles(
                        chunk.tiles@,
                        complex_tiles@,
                    )[i],
            decreases World::CHUNK_SIZE - index,
        {
            let position = World::get_localized_tile_position_form_index(index);
            let tile = match TerrainTile::from_chunk_tile_id_and_metadata(
                chunk.tiles[index],
                complex_tiles.get(position),
            ) {
                Some(tile) => tile,
                None => TerrainTile::Static(StaticTerrainTile::Stone),
            };
            chunk_array[index] = tile;
            index += 1;
        }
        assert(chunk_array@ =~= Self::decoded_tiles(chunk.tiles@, complex_tiles@));
        Ok(chunk_array)
    }

    /// Whether the tile at `index` reads as stone for want of better: its id
    /// names no terrain, or names a deposit that has no magnitude.
    pub open spec fn falls_back(tiles: Seq<u8>, magnitudes: Map<(i32, i32), u32>, index: int)
        -> bool {
        &&& 0 <= index < tiles.len()
        &&& TerrainTile::from_id(
            tiles[index],
            magnitude_at(magnitudes, ((index % 64) as i32, (index / 64) as i32)),
        ) is None
    }

    /// Lists the tiles of the record that `from_xy` reads as stone for want of
    /// a known id or of a magnitude, given the rows read for chunk
    /// `(chunk_x, chunk_y)`: every such index, in rising order. A malformed
    /// record is not read at all, and has none.
    pub fn find_fallbacks(&self, complex_tiles: &Vec<ComplexTile>, chunk_x: i64, chunk_y: i64) -> (places:
        Vec<usize>)
        ensures
            self.tiles@.len() != World::CHUNK_SIZE ==> places@.len() == 0,
            forall|k: int|
                0 <= k < places@.len() ==> Self::falls_back(
                    self.tiles@,
                    ComplexTile::magnitudes(complex_tiles@, chunk_x, chunk_y),
                    #[trigger] places@[k] as int,
                ),
            self.tiles@.len() == World::CHUNK_SIZE ==> forall|index: int|
                #[trigger] Self::falls_back(
                    self.tiles@,
                    ComplexTile::magnitudes(complex_tiles@, chunk_x, chunk_y),
                    index,
                ) ==> places@.contains(index as usize),
            forall|j: int, k: int| 0 <= j < k < places@.len() ==> places@[j] < places@[k],
    {
        let mut places: Vec<usize> = Vec::new();
        if self.tiles.len() != World::CHUNK_SIZE {
            return places;
        }
        let magnitudes = ComplexTile::from_chunk(complex_tiles, chunk_x, chunk_y);
        let mut index: usize = 0;
        while index < World::CHUNK_SIZE
            invariant
                index <= World::CHUNK_SIZE,
                self.tiles@.len() == World::CHUNK_SIZE,
                magnitudes@ == ComplexTile::magnitudes(complex_tiles@, chunk_x, chunk_y),
                forall|k: int|
                    0 <= k < places@.len() ==> #[trigger] places@[k] < index && Self::falls_back(
                        self.tiles@,
                        magnitudes@,
                        places@[k] as int,
                    ),
                forall|earlier: int|
                    0 <= earlier < index && #[trigger] Self::falls_back(
                        self.tiles@,
                        magnitudes@,
                        earlier,
                    ) ==> places@.contains(earlier as usize),
                forall|j: int, k: int| 0 <= j < k < places@.len() ==> places@[j] < places@[k],
            decreases World::CHUNK_SIZE - index,
        {
            let position = World::get_localized_tile_position_form_index(index);
            let tile = TerrainTile::from_chunk_tile_id_and_metadata(
                self.tiles[index],
                magnitudes.get(position),
            );
            if tile.is_none() {
                let ghost before = places@;
                places.push(index);
                assert forall|earlier: int|
                    0 <= earlier < index + 1 && #[trigger] Self::falls_back(
                        self.tiles@,
                        magnitudes@,
                        earlier,
                    ) implies places@.contains(earlier as usize) by {
                    if earlier < index {
                        let k = choose|k: int| 0 <= k < before.len() && before[k] == earlier as usize;
                        assert(places@[k] == earlier as usize);
                    } else {
                        assert(places@[places@.len() - 1] == earlier as usize);
                    }
                }
            }
            index += 1;
        }
        places
    }

    /// What is to be stored for chunk `(chunk_x, chunk_y)` whose tiles are
    /// `chunk_tiles`: the rows of its deposits, which go first, and its record.
    pub fn save_chunk(chunk_x: i64, chunk_y: i64, chunk_tiles: &[TerrainTile]) -> (written: (
        Vec<ComplexTile>,
        Chunk,
    ))
        ensures
            written.0@ == ComplexTile::rows(chunk_tiles@, chunk_x, chunk_y),
            written.1.x == chunk_x,
            written.1.y == chunk_y,
            written.1.tiles@ == Self::tile_ids(chunk_tiles@),
    {
        let inserts = ComplexTile::save_chunk(chunk_x, chunk_y, chunk_tiles);

        let mut tile_ids: Vec<u8> = Vec::new();
        let mut index: usize = 0;
        while index < chunk_tiles.len()
            invariant
                index <= chunk_tiles.len(),
                tile_ids@.len() == index,
                forall|i: int| 0 <= i < index ==> tile_ids@[i] == chunk_tiles@[i].tile_id(),
            decreases chunk_tiles.len() - index,
        {
            tile_ids.push(chunk_tiles[index].into_chunk_tile_id());
            index += 1;
        }
        assert(tile_ids@ =~= Self::tile_ids(chunk_tiles@));
        (inserts, Chunk { x: chunk_x, y: chunk_y, tiles: tile_ids })
    }
}

/// The magnitude that the rows of `tiles` keep under `place`: that of the tile
/// lying there, if it is a deposit.
pub open spec fn kept_magnitude(tiles: Seq<TerrainTile>, place: (i32, i32)) -> Option<u32> {
    let index = World::chunk_index(place.0 as int, place.1 as int);
    if 0 <= place.0 < 64 && 0 <= place.1 && index < tiles.len() {
        tiles[index].magnitude()
    } else {
        None
    }
}

/// One more row changes the magnitudes at its own place only, and only if it
/// belongs to the chunk.
pub proof fn lemma_magnitudes_push(rows: Seq<ComplexTile>, row: ComplexTile, x_pos: i64, y_pos: i64)
    ensures
        ComplexTile::magnitudes(rows.push(row), x_pos, y_pos) == if row.lies_in(x_pos, y_pos) {
            ComplexTile::magnitudes(rows, x_pos, y_pos).insert(
                (row.x, row.y),
                row.metadata as u32,
            )
        } else {
            ComplexTile::magnitudes(rows, x_pos, y_pos)
        },
{
    assert(rows.push(row).drop_last() == rows);
}

/// The rows written for a run of tiles keep, under the place of each tile, the
/// magnitude of that tile, and nothing anywhere else.
pub proof fn lemma_rows_keep_magnitudes(tiles: Seq<TerrainTile>, x_pos: i64, y_pos: i64)
    requires
        tiles.len() <= 0x20_0000_0000,
    ensures
        forall|place: (i32, i32)|
            magnitude_at(
                ComplexTile::magnitudes(ComplexTile::rows(tiles, x_pos, y_pos), x_pos, y_pos),
                place,
            ) == #[trigger] kept_magnitude(tiles, place),
    decreases tiles.len(),
{
    if tiles.len() > 0 {
        let earlier = tiles.drop_last();
        let last = tiles.len() - 1;
        lemma_rows_keep_magnitudes(earlier, x_pos, y_pos);
        let rows = ComplexTile::rows(earlier, x_pos, y_pos);
        let kept = ComplexTile::magnitudes(rows, x_pos, y_pos);
        match tiles.last().magnitude() {
            Some(metadata) => {
                let row = ComplexTile::row_of(x_pos, y_pos, last, metadata);
                lemma_magnitudes_push(rows, row, x_pos, y_pos);
                assert((metadata as i64) as u32 == metadata) by (bit_vector);
                assert forall|place: (i32, i32)|
                    magnitude_at(kept.insert((row.x, row.y), metadata), place)
                        == #[trigger] kept_magnitude(tiles, place) by {
                    assert(kept_magnitude(earlier, place) == magnitude_at(kept, place));
                    if place == (row.x, row.y) {
                        assert(World::chunk_index(place.0 as int, place.1 as int) == last);
                    }
                }
            },
            None => {
                assert forall|place: (i32, i32)|
                    magnitude_at(kept, place) == #[trigger] kept_magnitude(tiles, place) by {
                    assert(kept_magnitude(earlier, place) == magnitude_at(kept, place));
                }
            },
        }
    }
}

/// A chunk that is written out and read back is the chunk that was written:
/// the ids and rows of `tiles` decode to `tiles`.
pub proof fn lemma_codec_round_trip(tiles: Seq<TerrainTile>, chunk_x: i64, chunk_y: i64)
    requires
        tiles.len() == World::CHUNK_SIZE,
    ensures
        Chunk::decoded_tiles(
            Chunk::tile_ids(tiles),
            ComplexTile::magnitudes(ComplexTile::rows(tiles, chunk_x, chunk_y), chunk_x, chunk_y),
        ) == tiles,
{
    lemma_rows_keep_magnitudes(tiles, chunk_x, chunk_y);
    let magnitudes = ComplexTile::magnitudes(
        ComplexTile::rows(tiles, chunk_x, chunk_y),
        chunk_x,
        chunk_y,
    );
    let read = Chunk::decoded_tiles(Chunk::tile_ids(tiles), magnitudes);
    assert forall|index: int| 0 <= index < tiles.len() implies read[index] == tiles[index] by {
        let place = ((index % 64) as i32, (index / 64) as i32);
        assert(kept_magnitude(tiles, place) == tiles[index].magnitude());
        crate::tile::lemma_tile_id_round_trip(tiles[index]);
    }
    assert(read =~= tiles);
}

/// Reading back what `Chunk::save_chunk` and `ComplexTile::save_chunk` wrote
/// for a chunk gives the chunk: `record` and `rows` stand for any record and
/// rows that hold what the two functions return for `tiles`.
pub proof fn lemma_saved_chunk_reads_back(
    tiles: Seq<TerrainTile>,
    record: Chunk,
    rows: Vec<ComplexTile>,
    chunk_x: i64,
    chunk_y: i64,
)
    requires
        tiles.len() == World::CHUNK_SIZE,
        record.tiles@ == Chunk::tile_ids(tiles),
        rows@ == ComplexTile::rows(tiles, chunk_x, chunk_y),
    ensures
        Chunk::read_back(Ok(record), Ok(rows), chunk_x, chunk_y) == Ok::<
            Seq<TerrainTile>,
            ChunkError,
        >(tiles),
{
    lemma_codec_round_trip(tiles, chunk_x, chunk_y);
}

/// A record that does not hold one id for each tile of a chunk is malformed,
/// whatever its rows are and whatever the ids say.
pub proof fn lemma_wrong_length_is_malformed(
    record: Chunk,
    complex_tiles: Result<Vec<ComplexTile>, StoreError>,
    chunk_x: i64,
    chunk_y: i64,
)
    requires
        record.tiles@.len() != World::CHUNK_SIZE,
    ensures
        Chunk::read_back(Ok(record), complex_tiles, chunk_x, chunk_y) == Err::<
            Seq<TerrainTile>,
            ChunkError,
        >(ChunkError::ChunkMalformed),
{
}


} // verus!
