use chrono::NaiveDateTime;
use noise::{NoiseFn, Perlin};
use tileworld::generator::{Layer, TileReading, WorldGenerator, SOFTENING};
use tileworld::layers::WorldResource;
use tileworld::manager::DatabaseManager;
use tileworld::table::{ChunkStep, EntityId, LoadedChunkTable};
use tileworld::tile::{ComplexTerrainTile, StaticTerrainTile, TerrainTile};
use tileworld::world::{World, WorldObj};

fn value(noise: &Perlin, layer: &Layer, position: [i64; 2]) -> f64 {
    let scale = layer.noise_scale() as f64 / 10000.0;
    noise.get([position[0] as f64 * scale, position[1] as f64 * scale])
}

fn member(noise: &Perlin, layer: &Layer, position: [i64; 2], offset: f64) -> bool {
    value(noise, layer, position) - offset > layer.threshold() as f64 / 100.0
}

fn read_tile(noise: &Perlin, generator: &WorldGenerator, position: [i64; 2]) -> TileReading {
    let bases = generator.base_terrain();
    let resources = generator.world_resources();
    let mut offsets = vec![0.0];
    for layer in bases.iter() {
        offsets.push(value(noise, layer, position));
    }
    TileReading {
        base_member: bases.iter().map(|layer| member(noise, layer, position, 0.0)).collect(),
        base_nearby: bases
            .iter()
            .map(|layer| member(noise, layer, position, -(SOFTENING as f64 / 100.0)))
            .collect(),
        resource_member: offsets
            .iter()
            .map(|offset| {
                resources.iter().map(|layer| member(noise, layer, position, *offset)).collect()
            })
            .collect(),
    }
}

fn survey(world: &World, generator: &WorldGenerator, chunk: [i64; 2]) -> Vec<TileReading> {
    let noise = Perlin::new(world.noise_seed());
    (0..World::CHUNK_SIZE)
        .map(|index| {
            read_tile(&noise, generator, World::get_tile_position_from_index(chunk, index))
        })
        .collect()
}

fn world_1337() -> World {
    WorldObj { id: 0, origin_time: NaiveDateTime::MIN, seed: 1337 }.into()
}

#[test]
fn verify_load_chunk() {
    let database = DatabaseManager::test_harness();
    let world = world_1337();
    let generator = WorldGenerator::default();
    let mut chunk_table = LoadedChunkTable::default();
    assert!(chunk_table.get_if_exists([0, 0]).is_none());

    // Ensure load works
    let conn = database.try_take().ok();
    assert!(conn.is_none());
    assert_eq!(chunk_table.get(&conn, [0, 0]), ChunkStep::Generate { persist: false });
    let readings = survey(&world, &generator, [0, 0]);
    assert!(World::check_survey(&generator, &readings));
    chunk_table.gen(&generator, &world, [0, 0], &readings);

    let chunk = chunk_table.get_if_exists([0, 0]);
    assert!(chunk.is_some());
    let chunk = chunk.unwrap();

    // Ensure seed produces repeatable generation
    assert_eq!(chunk.chunk[0], TerrainTile::Static(StaticTerrainTile::Stone));
    assert_eq!(chunk.chunk[2056], TerrainTile::Complex(ComplexTerrainTile::Copper(4562)));
}

#[test]
fn unload_then_get_generates_again() {
    let world = world_1337();
    let generator = WorldGenerator::default();
    let mut chunk_table = LoadedChunkTable::default();
    let readings = survey(&world, &generator, [0, 0]);
    chunk_table.gen(&generator, &world, [0, 0], &readings);
    chunk_table.update_entity([0, 0], EntityId(7));
    assert_eq!(chunk_table.get(&None, [0, 0]), ChunkStep::Ready);
    assert_eq!(chunk_table.get_if_exists([0, 0]).unwrap().spawned_entity, Some(EntityId(7)));

    let evicted = chunk_table.remove([0, 0]).unwrap();
    assert_eq!(evicted.spawned_entity, Some(EntityId(7)));
    assert!(chunk_table.get_if_exists([0, 0]).is_none());
    assert_eq!(chunk_table.get(&None, [0, 0]), ChunkStep::Generate { persist: false });

    chunk_table.gen(&generator, &world, [0, 0], &readings);
    let fresh = chunk_table.get_if_exists([0, 0]).unwrap();
    assert_eq!(fresh.spawned_entity, None);
    assert_eq!(fresh.chunk[2056], TerrainTile::Complex(ComplexTerrainTile::Copper(4562)));
    assert!(fresh.chunk.iter().zip(evicted.chunk.iter()).all(|(a, b)| a == b));
}

#[test]
fn generation_is_repeatable() {
    let generator = WorldGenerator::default();
    let first = world_1337();
    let second: World = WorldObj { id: 9, origin_time: NaiveDateTime::MAX, seed: 1337 }.into();
    let a = first.get_chunk(&generator, [3, -2], &survey(&first, &generator, [3, -2]));
    let b = second.get_chunk(&generator, [3, -2], &survey(&second, &generator, [3, -2]));
    assert!(a.iter().zip(b.iter()).all(|(x, y)| x == y));
}
