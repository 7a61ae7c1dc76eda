//! The world generator: two lists of terrain layers, each in the order of
//! their ranks, and the rule by which they share out the tiles.
//!
//! Whether a tile belongs to a layer is a question about the noise field, which
//! is not asked here. The answers come in as a `TileReading`, and the
//! generator decides among them.

use vstd::prelude::*;
use crate::layers::{in_range, Coal, Copper, Impassable, Iron, Water, WorldResource};
use crate::tile::{StaticTerrainTile, TerrainTile};
use crate::world::World;

verus! {

/// The layers there are.
#[derive(Debug, Clone, Copy, PartialEq, Eq, Structural)]
pub enum Layer {
    Water,
    Impassable,
    Copper,
    Iron,
    Coal,
}

impl WorldResource for Layer {
    open spec fn rank(&self) -> u8 {
        match self {
            Layer::Water => Water.rank(),
            Layer::Impassable => Impassable.rank(),
            Layer::Copper => Copper.rank(),
            Layer::Iron => Iron.rank(),
            Layer::Coal => Coal.rank(),
        }
    }

    open spec fn label(&self) -> Seq<char> {
        match self {
            Layer::Water => Water.label(),
            Layer::Impassable => Impassable.label(),
            Layer::Copper => Copper.label(),
            Layer::Iron => Iron.label(),
            Layer::Coal => Coal.label(),
        }
    }

    open spec fn tile_at(&self, seed: i64, x: i64, y: i64) -> TerrainTile {
        match self {
            Layer::Water => Water.tile_at(seed, x, y),
            Layer::Impassable => Impassable.tile_at(seed, x, y),
            Layer::Copper => Copper.tile_at(seed, x, y),
            Layer::Iron => Iron.tile_at(seed, x, y),
            Layer::Coal => Coal.tile_at(seed, x, y),
        }
    }

    open spec fn bar(&self) -> u8 {
        match self {
            Layer::Water => Water.bar(),
            Layer::Impassable => Impassable.bar(),
            Layer::Copper => Copper.bar(),
            Layer::Iron => Iron.bar(),
            Layer::Coal => Coal.bar(),
        }
    }

    open spec fn scale(&self) -> u16 {
        match self {
            Layer::Water => Water.scale(),
            Layer::Impassable => Impassable.scale(),
            Layer::Copper => Copper.scale(),
            Layer::Iron => Iron.scale(),
            Layer::Coal => Coal.scale(),
        }
    }

    fn terrain_tile(&self, world: &World, position: [i64; 2]) -> (tile: TerrainTile) {
        match self {
            Layer::Water => Water.terrain_tile(world, position),
            Layer::Impassable => Impassable.terrain_tile(world, position),
            Layer::Copper => Copper.terrain_tile(world, position),
            Layer::Iron => Iron.terrain_tile(world, position),
            Layer::Coal => Coal.terrain_tile(world, position),
        }
    }

    fn priority(&self) -> (priority: u8) {
        match self {
            Layer::Water => Water.priority(),
            Layer::Impassable => Impassable.priority(),
            Layer::Copper => Copper.priority(),
            Layer::Iron => Iron.priority(),
            Layer::Coal => Coal.priority(),
        }
    }

    fn name(&self) -> (name: &'static str) {
        match self {
            Layer::Water => Water.name(),
            Layer::Impassable => Impassable.name(),
            Layer::Copper => Copper.name(),
            Layer::Iron => Iron.name(),
            Layer::Coal => Coal.name(),
        }
    }

    fn threshold(&self) -> (hundredths: u8) {
        match self {
            Layer::Water => Water.threshold(),
            Layer::Impassable => Impassable.threshold(),
            Layer::Copper => Copper.threshold(),
            Layer::Iron => Iron.threshold(),
            Layer::Coal => Coal.threshold(),
        }
    }

    fn noise_scale(&self) -> (ten_thousandths: u16) {
        match self {
            Layer::Water => Water.noise_scale(),
            Layer::Impassable => Impassable.noise_scale(),
            Layer::Copper => Copper.noise_scale(),
            Layer::Iron => Iron.noise_scale(),
            Layer::Coal => Coal.noise_scale(),
        }
    }
}

/// What the noise field says of one tile, layer by layer. Each entry answers
/// whether the layer's noise at the tile, less an offset, exceeds the layer's
/// threshold. The layers are counted as the generator lists them.
#[derive(Clone, Debug)]
pub struct TileReading {
    /// For each base-terrain layer: the answer with no offset.
    pub base_member: Vec<bool>,
    /// For each base-terrain layer: the answer with the softening offset,
    /// which lowers the threshold by `SOFTENING` hundredths.
    pub base_nearby: Vec<bool>,
    /// For each resource layer, the answers in a row of their own for each
    /// offset that can be in force. Row 0 holds them for no offset. Row `i + 1`
    /// holds them for an offset of the noise of base-terrain layer `i` at the tile.
    pub resource_member: Vec<Vec<bool>>,
}

/// By how much the threshold of a base-terrain layer is lowered when the
/// generator looks for base terrain near a tile, in hundredths.
pub const SOFTENING: u8 = 10;

/// The first index from `from` on at which `flags` holds `true`.
pub open spec fn first_set(flags: Seq<bool>, from: int) -> Option<int>
    decreases flags.len() - from,
{
    if from < 0 || from >= flags.len() {
        None
    } else if flags[from] {
        Some(from)
    } else {
        first_set(flags, from + 1)
    }
}

/// Whether `layers` stand in the order of their ranks, the highest first.
pub open spec fn ranked(layers: Seq<Layer>) -> bool {
    forall|i: int, j: int| 0 <= i <= j < layers.len() ==> layers[i].rank() >= layers[j].rank()
}

/// Where a layer of rank `rank` goes into `layers`: the first place from `from`
/// on that holds a layer of lower rank, and the end if there is none.
pub open spec fn slot(layers: Seq<Layer>, rank: u8, from: int) -> int
    decreases layers.len() - from,
{
    if 0 <= from < layers.len() && layers[from].rank() >= rank {
        slot(layers, rank, from + 1)
    } else {
        from
    }
}

/// `layers` with `layer` put in at its slot: behind every layer of its own
/// rank or a higher one, and before the others, which keep their order.
pub open spec fn inserted(layers: Seq<Layer>, layer: Layer) -> Seq<Layer> {
    layers.insert(slot(layers, layer.rank(), 0), layer)
}

impl TileReading {
    /// Whether the reading holds one answer for each layer of `generator`, in
    /// each of its rows.
    pub open spec fn fits_spec(&self, generator: &WorldGenerator) -> bool {
        &&& self.base_member@.len() == generator.base_layers().len()
        &&& self.base_nearby@.len() == generator.base_layers().len()
        &&& self.resource_member@.len() == generator.base_layers().len() + 1
        &&& forall|row: int|
            0 <= row < self.resource_member@.len() ==> (#[trigger] self.resource_member@[row])@.len()
                == generator.resource_layers().len()
    }

    /// The row of `resource_member` to go by: that of the first base-terrain
    /// layer found near the tile, and row 0 if none is near.
    pub open spec fn row_in_force(&self) -> int {
        match first_set(self.base_nearby@, 0) {
            Some(layer) => layer + 1,
            None => 0,
        }
    }

    #[verifier::when_used_as_spec(fits_spec)]
    pub fn fits(&self, generator: &WorldGenerator) -> (fits: bool)
        ensures
            fits == self.fits_spec(generator),
    {
        let bases = generator.base_terrain.len();
        let resources = generator.world_resources.len();
        if self.base_member.len() != bases || self.base_nearby.len() != bases {
            return false;
        }
        let rows = self.resource_member.len();
        if rows == 0 || rows - 1 != bases {
            return false;
        }
        let mut row: usize = 0;
        while row < self.resource_member.len()
            invariant
                row <= self.resource_member@.len(),
                resources == generator.resource_layers().len(),
                forall|earlier: int|
                    0 <= earlier < row ==> (#[trigger] self.resource_member@[earlier])@.len()
                        == resources,
            decreases self.resource_member@.len() - row,
        {
            if self.resource_member[row].len() != resources {
                return false;
            }
            row += 1;
        }
        true
    }
}

/// The first index at which `flags` holds `true`.
fn first_claim(flags: &Vec<bool>) -> (found: Option<usize>)
    ensures
        match found {
            Some(index) => first_set(flags@, 0) == Some(index as int),
            None => first_set(flags@, 0) is None,
        },
{
    let mut index: usize = 0;
    while index < flags.len()
        invariant
            index <= flags@.len(),
            first_set(flags@, 0) == first_set(flags@, index as int),
        decreases flags@.len() - index,
    {
        if flags[index] {
            return Some(index);
        }
        index += 1;
    }
    None
}

/// The layers of a world, base terrain apart from resources, each list in the
/// order of the ranks.
pub struct WorldGenerator {
    base_terrain: Vec<Layer>,
    world_resources: Vec<Layer>,
}

impl WorldGenerator {
    /// The base-terrain layers, in the order in which they are asked.
    pub closed spec fn base_layers(&self) -> Seq<Layer> {
        self.base_terrain@
    }

    /// The resource layers, in the order in which they are asked.
    pub closed spec fn resource_layers(&self) -> Seq<Layer> {
        self.world_resources@
    }

    /// Both lists stand in the order of their ranks.
    pub open spec fn wf(&self) -> bool {
        ranked(self.base_layers()) && ranked(self.resource_layers())
    }

    /// The tile at `(x, y)` of the world seeded with `seed`, given what the
    /// noise field says of it. The first base-terrain layer that the tile
    /// belongs to lays it down. If there is none, the first resource layer
    /// does that the tile belongs to under the offset in force. If there is
    /// none either, the tile is stone.
    pub open spec fn resolve(&self, seed: i64, x: i64, y: i64, reading: TileReading) -> TerrainTile {
        match first_set(reading.base_member@, 0) {
            Some(layer) => self.base_layers()[layer].tile_at(seed, x, y),
            None => match first_set(reading.resource_member@[reading.row_in_force()]@, 0) {
                Some(layer) => self.resource_layers()[layer].tile_at(seed, x, y),
                None => TerrainTile::Static(StaticTerrainTile::Stone),
            },
        }
    }

    pub fn new() -> (generator: Self)
        ensures
            generator.base_layers() == Seq::<Layer>::empty(),
            generator.resource_layers() == Seq::<Layer>::empty(),
            generator.wf(),
    {
        Self { base_terrain: Vec::new(), world_resources: Vec::new() }
    }

    /// The base-terrain layers, in the order in which a reading counts them.
    pub fn base_terrain(&self) -> (layers: &Vec<Layer>)
        ensures
            layers@ == self.base_layers(),
    {
        &self.base_terrain
    }

    /// The resource layers, in the order in which a reading counts them.
    pub fn world_resources(&self) -> (layers: &Vec<Layer>)
        ensures
            layers@ == self.resource_layers(),
    {
        &self.world_resources
    }

    /// Puts `resource` among the base-terrain layers, behind those of its own
    /// rank that are there already.
    pub fn add_base(self, resource: Layer) -> (generator: Self)
        requires
            self.wf(),
        ensures
            generator.base_layers() == inserted(self.base_layers(), resource),
            generator.resource_layers() == self.resource_layers(),
            generator.wf(),
    {
        let mut base_terrain = self.base_terrain;
        insert_ranked(&mut base_terrain, resource);
        Self { base_terrain, world_resources: self.world_resources }
    }

    /// Puts `resource` among the resource layers, behind those of its own rank
    /// that are there already.
    pub fn add(self, resource: Layer) -> (generator: Self)
        requires
            self.wf(),
        ensures
            generator.base_layers() == self.base_layers(),
            generator.resource_layers() == inserted(self.resource_layers(), resource),
            generator.wf(),
    {
        let mut world_resources = self.world_resources;
        insert_ranked(&mut world_resources, resource);
        Self { base_terrain: self.base_terrain, world_resources }
    }

    /// The base-terrain layer whose noise at the tile is the offset under which
    /// the resource layers are asked: the first one found near the tile. With
    /// `None` the offset is zero.
    pub fn get_base_terrain_modifier(&self, reading: &TileReading) -> (layer: Option<usize>)
        ensures
            match layer {
                Some(index) => reading.row_in_force() == index + 1,
                None => reading.row_in_force() == 0,
            },
    {
        first_claim(&reading.base_nearby)
    }

    pub fn get_tile(&self, world: &World, pos: [i64; 2], reading: &TileReading) -> (tile:
        TerrainTile)
        requires
            reading.fits(self),
        ensures
            tile == self.resolve(world.seed, pos[0], pos[1], *reading),
            in_range(tile),
    {
        proof {
            lemma_first_set_in_range(reading.base_member@, 0);
            lemma_first_set_in_range(reading.base_nearby@, 0);
            assert(reading.base_nearby@.len() == reading.base_nearby.len());
        }
        if let Some(layer) = first_claim(&reading.base_member) {
            return self.base_terrain[layer].terrain_tile(world, pos);
        }
        let row = match self.get_base_terrain_modifier(reading) {
            Some(layer) => layer + 1,
            None => 0,
        };
        proof {
            lemma_first_set_in_range(reading.resource_member@[row as int]@, 0);
        }
        match first_claim(&reading.resource_member[row]) {
            Some(layer) => self.world_resources[layer].terrain_tile(world, pos),
            None => TerrainTile::Static(StaticTerrainTile::Stone),
        }
    }
}

impl Default for WorldGenerator {
    /// The generator of the five layers: impassable ground before water, and
    /// coal before iron before copper.
    fn default() -> (generator: Self)
        ensures
            generator.base_layers() == seq![Layer::Impassable, Layer::Water],
            generator.resource_layers() == seq![Layer::Coal, Layer::Iron, Layer::Copper],
            generator.wf(),
    {
        let generator = WorldGenerator::new();
        let generator = generator.add(Layer::Copper);
        assert(generator.resource_layers() == seq![Layer::Copper]);
        let generator = generator.add(Layer::Iron);
        assert(generator.resource_layers() == seq![Layer::Iron, Layer::Copper]) by {
            reveal_with_fuel(slot, 3);
        }
        let generator = generator.add(Layer::Coal);
        assert(generator.resource_layers() == seq![Layer::Coal, Layer::Iron, Layer::Copper]) by {
            reveal_with_fuel(slot, 4);
        }
        let generator = generator.add_base(Layer::Water);
        assert(generator.base_layers() == seq![Layer::Water]);
        let generator = generator.add_base(Layer::Impassable);
        assert(generator.base_layers() == seq![Layer::Impassable, Layer::Water]) by {
            reveal_with_fuel(slot, 3);
        }
        generator
    }
}

impl World {
    /// The tiles of chunk `chunk` in the world seeded with `seed`: each is what
    /// `generator` resolves at the tile's world position from the reading
    /// taken there. The readings come in the order of the tiles.
    pub open spec fn chunk_tiles(
        seed: i64,
        generator: &WorldGenerator,
        chunk: [i64; 2],
        readings: Seq<TileReading>,
    ) -> Seq<TerrainTile> {
        Seq::new(
            4096,
            |index: int|
                generator.resolve(
                    seed,
                    World::tile_position(chunk, index as usize).0 as i64,
                    World::tile_position(chunk, index as usize).1 as i64,
                    readings[index],
                ),
        )
    }

    /// Whether `readings` hold one reading for each tile of a chunk, each
    /// fitting `generator`.
    pub open spec fn survey_fits(generator: &WorldGenerator, readings: Seq<TileReading>) -> bool {
        &&& readings.len() == World::CHUNK_SIZE
        &&& forall|index: int|
            0 <= index < readings.len() ==> (#[trigger] readings[index]).fits(generator)
    }

    /// Tells whether `readings` can be handed to `get_chunk` with `generator`.
    pub fn check_survey(generator: &WorldGenerator, readings: &Vec<TileReading>) -> (fits: bool)
        ensures
            fits == Self::survey_fits(generator, readings@),
    {
        if readings.len() != World::CHUNK_SIZE {
            return false;
        }
        let mut index: usize = 0;
        while index < readings.len()
            invariant
                index <= readings@.len(),
                forall|earlier: int|
                    0 <= earlier < index ==> (#[trigger] readings@[earlier]).fits(generator),
            decreases readings@.len() - index,
        {
            if !readings[index].fits(generator) {
                return false;
            }
            index += 1;
        }
        true
    }

    /// Returns a chunk for the given world, using the properties of the provided
    /// world generator and what the noise field says of each of its tiles.
    pub fn get_chunk(
        &self,
        generator: &WorldGenerator,
        chunk: [i64; 2],
        readings: &Vec<TileReading>,
    ) -> (tiles: [TerrainTile; 4096])
        requires
            Self::chunk_in_reach(chunk),
            Self::survey_fits(generator, readings@),
        ensures
            tiles@ == Self::chunk_tiles(self.seed, generator, chunk, readings@),
            forall|index: int| 0 <= index < tiles@.len() ==> in_range(#[trigger] tiles@[index]),
    {
        let mut tiles = [TerrainTile::Static(StaticTerrainTile::Stone);4096];
        let mut index: usize = 0;
        while index < World::CHUNK_SIZE
            invariant
                index <= World::CHUNK_SIZE,
                Self::chunk_in_reach(chunk),
                Self::survey_fits(generator, readings@),
                forall|earlier: int|
                    0 <= earlier < index ==> tiles@[earlier] == Self::chunk_tiles(
                        self.seed,
                        generator,
                        chunk,
                        readings@,
                    )[earlier],
                forall|earlier: int| 0 <= earlier < index ==> in_range(#[trigger] tiles@[earlier]),
            decreases World::CHUNK_SIZE - index,
        {
            let position = World::get_tile_position_from_index(chunk, index);
            tiles[index] = generator.get_tile(self, position, &readings[index]);
            index += 1;
        }
        assert(tiles@ =~= Self::chunk_tiles(self.seed, generator, chunk, readings@));
        tiles
    }
}

/// A chunk depends on the world's seed, the generator, the chunk's coordinate
/// and the readings, and on nothing else: two worlds with one seed have the
/// same chunks, whatever else they differ in.
pub proof fn lemma_chunks_are_determined(
    first: World,
    second: World,
    generator: WorldGenerator,
    chunk: [i64; 2],
    readings: Seq<TileReading>,
    first_tiles: [TerrainTile; 4096],
    second_tiles: [TerrainTile; 4096],
)
    requires
        first.seed == second.seed,
        first_tiles@ == World::chunk_tiles(first.seed, &generator, chunk, readings),
        second_tiles@ == World::chunk_tiles(second.seed, &generator, chunk, readings),
    ensures
        first_tiles == second_tiles,
{
    assert(first_tiles =~= second_tiles);
}

/// Of the base-terrain layers that a tile belongs to, the one that stands
/// first in the generator lays the tile down, and no layer that the tile
/// belongs to outranks it. So of two such layers the higher rank wins, and
/// with equal ranks the one that stands first.
pub proof fn lemma_first_base_layer_wins(
    generator: WorldGenerator,
    seed: i64,
    x: i64,
    y: i64,
    reading: TileReading,
    first: int,
    second: int,
)
    requires
        generator.wf(),
        reading.fits_spec(&generator),
        0 <= first < second < generator.base_layers().len(),
        reading.base_member@[first],
        reading.base_member@[second],
    ensures
        first_set(reading.base_member@, 0) is Some,
        ({
            let winner = first_set(reading.base_member@, 0)->0;
            &&& 0 <= winner <= first
            &&& reading.base_member@[winner]
            &&& generator.resolve(seed, x, y, reading) == generator.base_layers()[winner].tile_at(
                seed,
                x,
                y,
            )
            &&& generator.base_layers()[winner].rank() >= generator.base_layers()[first].rank()
            &&& generator.base_layers()[first].rank() >= generator.base_layers()[second].rank()
            &&& (forall|earlier: int| 0 <= earlier < first ==> !reading.base_member@[earlier])
                ==> winner == first
        }),
{
    lemma_first_set_in_range(reading.base_member@, 0);
}

/// A layer that is put in goes behind every layer of its own rank that is
/// there already, and the layers that are there keep their order: with equal
/// ranks, the layer that was put in first stands first.
pub proof fn lemma_insert_keeps_order(layers: Seq<Layer>, layer: Layer)
    requires
        ranked(layers),
    ensures
        ({
            let at = slot(layers, layer.rank(), 0);
            let after = inserted(layers, layer);
            &&& 0 <= at <= layers.len()
            &&& after.len() == layers.len() + 1
            &&& after[at] == layer
            &&& forall|i: int| 0 <= i < at ==> after[i] == layers[i] && layers[i].rank() >= layer.rank()
            &&& forall|i: int|
                at <= i < layers.len() ==> after[i + 1] == layers[i] && layers[i].rank() < layer.rank()
        }),
{
    lemma_slot(layers, layer.rank(), 0);
}

/// Puts `layer` into `layers` at its slot.
fn insert_ranked(layers: &mut Vec<Layer>, layer: Layer)
    requires
        ranked(old(layers)@),
    ensures
        final(layers)@ == inserted(old(layers)@, layer),
        ranked(final(layers)@),
{
    let rank = layer.priority();
    let mut at: usize = 0;
    while at < layers.len() && layers[at].priority() >= rank
        invariant
            at <= layers@.len(),
            layers@ == old(layers)@,
            rank == layer.rank(),
            slot(layers@, rank, 0) == slot(layers@, rank, at as int),
            forall|i: int| 0 <= i < at ==> layers@[i].rank() >= rank,
        decreases layers@.len() - at,
    {
        at += 1;
    }
    proof {
        lemma_insert_keeps_ranks(layers@, layer);
    }
    layers.insert(at, layer);
}

/// The first set flag, if there is one, lies inside the sequence, none is set
/// between `from` and it, and without one none is set from `from` on.
pub proof fn lemma_first_set_in_range(flags: Seq<bool>, from: int)
    requires
        0 <= from,
    ensures
        match first_set(flags, from) {
            Some(index) => from <= index < flags.len() && flags[index] && forall|i: int|
                from <= i < index ==> !flags[i],
            None => forall|i: int| from <= i < flags.len() ==> !flags[i],
        },
    decreases flags.len() - from,
{
    if from < flags.len() && !flags[from] {
        lemma_first_set_in_range(flags, from + 1);
    }
}

/// The slot of a rank lies inside the list or at its end; every layer from
/// `from` up to it has that rank or a higher one, and in a ranked list every
/// layer from it on has a lower one.
pub proof fn lemma_slot(layers: Seq<Layer>, rank: u8, from: int)
    requires
        0 <= from <= layers.len(),
    ensures
        from <= slot(layers, rank, from) <= layers.len(),
        forall|i: int| from <= i < slot(layers, rank, from) ==> layers[i].rank() >= rank,
        ranked(layers) ==> forall|i: int|
            slot(layers, rank, from) <= i < layers.len() ==> layers[i].rank() < rank,
    decreases layers.len() - from,
{
    if from < layers.len() && layers[from].rank() >= rank {
        lemma_slot(layers, rank, from + 1);
    }
}

/// A ranked list with one more layer put in at its slot is ranked.
pub proof fn lemma_insert_keeps_ranks(layers: Seq<Layer>, layer: Layer)
    requires
        ranked(layers),
    ensures
        ranked(inserted(layers, layer)),
{
    lemma_slot(layers, layer.rank(), 0);
    let at = slot(layers, layer.rank(), 0);
    let after = inserted(layers, layer);
    assert forall|i: int, j: int| 0 <= i <= j < after.len() implies after[i].rank()
        >= after[j].rank() by {
        let before_i = if i < at { i } else { i - 1 };
        let before_j = if j < at { j } else { j - 1 };
        if i != at && j != at {
            assert(after[i] == layers[before_i]);
            assert(after[j] == layers[before_j]);
        } else if i == at && j != at {
            assert(after[j] == layers[before_j]);
        } else if i != at && j == at {
            assert(after[i] == layers[before_i]);
        }
    }
}

} // verus!
