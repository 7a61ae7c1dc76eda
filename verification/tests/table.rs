use chrono::NaiveDateTime;
use tileworld::generator::{TileReading, WorldGenerator};
use tileworld::manager::DatabaseManager;
use tileworld::records::{Chunk, ChunkError, ComplexTile, StoreError};
use tileworld::table::{ChunkStep, EntityId, LoadedChunk, LoadedChunkTable};
use tileworld::tile::{ComplexTerrainTile, StaticTerrainTile, TerrainTile};
use tileworld::world::{World, WorldObj};

const STONE: TerrainTile = TerrainTile::Static(StaticTerrainTile::Stone);

fn world() -> World {
    WorldObj { id: 0, origin_time: NaiveDateTime::MIN, seed: 1337 }.into()
}

fn flat_survey() -> Vec<TileReading> {
    let stone = TileReading {
        base_member: vec![false, false],
        base_nearby: vec![false, false],
        resource_member: vec![vec![false; 3]; 3],
    };
    let mut survey = vec![stone; 4096];
    survey[7].resource_member[0][2] = true;
    survey
}

fn stored() -> (Vec<ComplexTile>, Chunk) {
    let mut tiles = vec![STONE; 4096];
    tiles[3] = TerrainTile::Complex(ComplexTerrainTile::Coal(1234));
    Chunk::save_chunk(2, 5, &tiles)
}

#[test]
fn new_table_holds_nothing() {
    let mut table = LoadedChunkTable::default();
    assert!(table.get_if_exists([0, 0]).is_none());
    assert!(table.get_mut_if_exists([0, 0]).is_none());
    assert!(table.remove([0, 0]).is_none());
}

#[test]
fn miss_with_a_slot_asks_the_store() {
    let table = LoadedChunkTable::default();
    let database = DatabaseManager::new(1);
    let conn = database.try_take().ok();
    assert!(conn.is_some());
    assert_eq!(table.get(&conn, [2, 5]), ChunkStep::Load);
}

#[test]
fn miss_without_a_slot_generates_without_storing() {
    let table = LoadedChunkTable::default();
    assert_eq!(table.get(&None, [2, 5]), ChunkStep::Generate { persist: false });
}

#[test]
fn stored_chunk_is_restored() {
    let mut table = LoadedChunkTable::default();
    let (rows, record) = stored();
    assert_eq!(table.restore([2, 5], Ok(record), Ok(rows)), Ok(ChunkStep::Ready));
    let entry = table.get_if_exists([2, 5]).unwrap();
    assert_eq!(entry.chunk[3], TerrainTile::Complex(ComplexTerrainTile::Coal(1234)));
    assert_eq!(entry.chunk[4], STONE);
    assert_eq!(entry.spawned_entity, None);
    let database = DatabaseManager::new(1);
    assert_eq!(table.get(&database.try_take().ok(), [2, 5]), ChunkStep::Ready);
    assert_eq!(table.get(&None, [2, 5]), ChunkStep::Ready);
    assert!(table.get_if_exists([5, 2]).is_none());
}

#[test]
fn malformed_record_is_an_error_and_fills_nothing() {
    let mut table = LoadedChunkTable::default();
    let record = Chunk { x: 2, y: 5, tiles: vec![1; 4095] };
    assert_eq!(table.restore([2, 5], Ok(record), Ok(Vec::new())), Err(ChunkError::ChunkMalformed));
    assert!(table.get_if_exists([2, 5]).is_none());
    assert_eq!(table.get(&None, [2, 5]), ChunkStep::Generate { persist: false });
}

#[test]
fn store_failure_falls_back_to_generation_with_storing() {
    let mut table = LoadedChunkTable::default();
    assert_eq!(
        table.restore([2, 5], Err(StoreError::NotFound), Err(StoreError::NotFound)),
        Ok(ChunkStep::Generate { persist: true })
    );
    assert_eq!(
        table.restore([2, 5], Err(StoreError::Failed), Ok(Vec::new())),
        Ok(ChunkStep::Generate { persist: true })
    );
    let (_, record) = stored();
    assert_eq!(
        table.restore([2, 5], Ok(record), Err(StoreError::Failed)),
        Ok(ChunkStep::Generate { persist: true })
    );
    assert!(table.get_if_exists([2, 5]).is_none());
}

#[test]
fn restore_keeps_an_entry_that_is_there() {
    let mut table = LoadedChunkTable::default();
    let (rows, record) = stored();
    table.restore([2, 5], Ok(record), Ok(rows)).unwrap();
    table.update_entity([2, 5], EntityId(11));
    let other = Chunk { x: 2, y: 5, tiles: vec![0; 4096] };
    assert_eq!(table.restore([2, 5], Ok(other), Ok(Vec::new())), Ok(ChunkStep::Ready));
    let malformed = Chunk { x: 2, y: 5, tiles: vec![0; 1] };
    assert_eq!(table.restore([2, 5], Ok(malformed), Ok(Vec::new())), Ok(ChunkStep::Ready));
    let entry = table.get_if_exists([2, 5]).unwrap();
    assert_eq!(entry.chunk[3], TerrainTile::Complex(ComplexTerrainTile::Coal(1234)));
    assert_eq!(entry.spawned_entity, Some(EntityId(11)));
}

#[test]
fn gen_fills_the_entry_and_overwrites() {
    let mut table = LoadedChunkTable::default();
    let generator = WorldGenerator::default();
    let world = world();
    let (rows, record) = stored();
    table.restore([2, 5], Ok(record), Ok(rows)).unwrap();
    table.update_entity([2, 5], EntityId(11));
    table.gen(&generator, &world, [2, 5], &flat_survey());
    let entry = table.get_if_exists([2, 5]).unwrap();
    assert_eq!(entry.spawned_entity, None);
    assert_eq!(entry.chunk[3], STONE);
    assert!(matches!(entry.chunk[7], TerrainTile::Complex(ComplexTerrainTile::Copper(_))));
    let expected = world.get_chunk(&generator, [2, 5], &flat_survey());
    assert_eq!(entry.chunk.to_vec(), expected.to_vec());
}

#[test]
fn generated_chunk_is_written_as_it_reads_back() {
    let mut table = LoadedChunkTable::default();
    let generator = WorldGenerator::default();
    table.gen(&generator, &world(), [2, 5], &flat_survey());
    let entry = table.get_if_exists([2, 5]).unwrap();
    let (rows, record) = Chunk::save_chunk(2, 5, &entry.chunk);
    assert_eq!(rows.len(), 1);
    assert_eq!((rows[0].x, rows[0].y), (7, 0));
    let mut again = LoadedChunkTable::default();
    assert_eq!(again.restore([2, 5], Ok(record), Ok(rows)), Ok(ChunkStep::Ready));
    assert_eq!(again.get_if_exists([2, 5]).unwrap().chunk.to_vec(), entry.chunk.to_vec());
}

#[test]
fn update_entity_sets_and_overwrites_the_link() {
    let mut table = LoadedChunkTable::default();
    let (rows, record) = stored();
    table.restore([2, 5], Ok(record), Ok(rows)).unwrap();
    table.update_entity([2, 5], EntityId(1));
    assert_eq!(table.get_if_exists([2, 5]).unwrap().spawned_entity, Some(EntityId(1)));
    table.update_entity([2, 5], EntityId(2));
    let entry = table.get_if_exists([2, 5]).unwrap();
    assert_eq!(entry.spawned_entity, Some(EntityId(2)));
    assert_eq!(entry.chunk[3], TerrainTile::Complex(ComplexTerrainTile::Coal(1234)));
}

#[test]
fn update_entity_of_an_absent_chunk_does_nothing() {
    let mut table = LoadedChunkTable::default();
    table.update_entity([2, 5], EntityId(1));
    assert!(table.get_if_exists([2, 5]).is_none());
}

#[test]
fn entry_can_be_changed_in_place() {
    let mut table = LoadedChunkTable::default();
    let (rows, record) = stored();
    table.restore([2, 5], Ok(record), Ok(rows)).unwrap();
    table.update_entity([2, 5], EntityId(1));
    if let Some(loaded_chunk) = table.get_mut_if_exists([2, 5]) {
        assert_eq!(loaded_chunk.spawned_entity.take(), Some(EntityId(1)));
    }
    assert_eq!(table.get_if_exists([2, 5]).unwrap().spawned_entity, None);
}

#[test]
fn remove_evicts_one_entry_only() {
    let mut table = LoadedChunkTable::default();
    let (rows, record) = stored();
    table.restore([2, 5], Ok(record.clone()), Ok(rows.clone())).unwrap();
    table.restore([5, 2], Ok(record), Ok(rows)).unwrap();
    let gone: LoadedChunk = table.remove([2, 5]).unwrap();
    assert_eq!(gone.chunk[3], TerrainTile::Complex(ComplexTerrainTile::Coal(1234)));
    assert!(table.get_if_exists([2, 5]).is_none());
    assert!(table.get_if_exists([5, 2]).is_some());
    assert!(table.remove([2, 5]).is_none());
}

#[test]
fn request_without_slots_never_asks_the_store() {
    let database = DatabaseManager::test_harness();
    let mut table = LoadedChunkTable::default();
    let (conn, step) = table.request_load(&database, [2, 5]);
    assert!(conn.is_none());
    assert_eq!(step, ChunkStep::Generate { persist: false });
    drop(conn);
    table.gen(&WorldGenerator::default(), &world(), [2, 5], &flat_survey());
    let (conn, step) = table.request_load(&database, [2, 5]);
    assert!(conn.is_none());
    assert_eq!(step, ChunkStep::Ready);
}

#[test]
fn request_with_a_slot_asks_the_store_for_a_missing_chunk() {
    let database = DatabaseManager::new(1);
    let table = LoadedChunkTable::default();
    let (conn, step) = table.request_load(&database, [2, 5]);
    assert!(conn.is_some());
    assert_eq!(step, ChunkStep::Load);
    // the one slot is taken: the next request does without
    let (second, step) = table.request_load(&database, [2, 5]);
    assert!(second.is_none());
    assert_eq!(step, ChunkStep::Generate { persist: false });
    drop(conn);
    assert!(table.request_load(&database, [2, 5]).0.is_some());
}

#[test]
fn tile_at_reads_the_loaded_chunk() {
    let mut table = LoadedChunkTable::default();
    let (rows, record) = stored();
    table.restore([2, 5], Ok(record), Ok(rows)).unwrap();
    let mut tiles = vec![STONE; 4096];
    tiles[3] = TerrainTile::Complex(ComplexTerrainTile::Iron(99));
    let (rows, record) = Chunk::save_chunk(-1, -1, &tiles);
    table.restore([-1, -1], Ok(record), Ok(rows)).unwrap();
    assert_eq!(
        table.tile_at([2 * 64 + 3, 5 * 64]),
        Some(TerrainTile::Complex(ComplexTerrainTile::Coal(1234)))
    );
    assert_eq!(table.tile_at([2 * 64 + 4, 5 * 64]), Some(STONE));
    assert_eq!(
        table.tile_at([-64 + 3, -64]),
        Some(TerrainTile::Complex(ComplexTerrainTile::Iron(99)))
    );
    assert_eq!(table.tile_at([-1, -1]), Some(STONE));
    assert_eq!(table.tile_at([0, 0]), None);
    assert_eq!(table.tile_at([i64::MIN, i64::MAX]), None);
}

#[test]
fn tile_at_undoes_tile_position() {
    let mut table = LoadedChunkTable::default();
    let generator = WorldGenerator::default();
    table.gen(&generator, &world(), [-3, 7], &flat_survey());
    let entry = table.get_if_exists([-3, 7]).unwrap();
    for index in 0..World::CHUNK_SIZE {
        let position = World::get_tile_position_from_index([-3, 7], index);
        assert_eq!(World::get_chunk_and_index(position), ([-3, 7], index));
        assert_eq!(table.tile_at(position), Some(entry.chunk[index]));
    }
}

#[test]
fn chunks_in_view_are_the_sixteen_around() {
    let mut table = LoadedChunkTable::default();
    let chunks = table.chunks_in_view([10, -10]);
    assert_eq!(chunks.len(), 16);
    assert_eq!(chunks[0], [8, -12]);
    assert_eq!(chunks[1], [8, -11]);
    assert_eq!(chunks[4], [9, -12]);
    assert_eq!(chunks[15], [11, -9]);
    let (rows, record) = stored();
    table.restore([10, -10], Ok(record), Ok(rows)).unwrap();
    assert!(table.chunks_in_view([10, -10]).is_empty());
    assert_eq!(table.chunks_in_view([11, -10]).len(), 16);
}
