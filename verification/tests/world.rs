use chrono::{NaiveDateTime, Utc};
use tileworld::records::StoreError;
use tileworld::world::{World, WorldBuilder, WorldObj, WorldStartup};

fn row(id: i32, seed: i64) -> WorldObj {
    WorldObj { id, origin_time: NaiveDateTime::MIN, seed }
}

#[test]
fn world_is_its_row() {
    let world: World = row(3, -9).into();
    assert_eq!((world.id, world.origin_time, world.seed), (3, NaiveDateTime::MIN, -9));
    let same = World::from(row(3, -9));
    assert_eq!((same.id, same.origin_time, same.seed), (3, NaiveDateTime::MIN, -9));
}

#[test]
fn noise_seed_is_the_low_half_of_the_seed() {
    assert_eq!(World::from(row(0, 1337)).noise_seed(), 1337);
    assert_eq!(World::from(row(0, -1)).noise_seed(), u32::MAX);
    assert_eq!(World::from(row(0, (5i64 << 32) + 17)).noise_seed(), 17);
    assert_eq!(World::from(row(0, i64::MIN)).noise_seed(), 0);
}

#[test]
fn builder_with_seed_counts_from_now() {
    let before = Utc::now().naive_utc();
    let (origin_time, seed) = World::build_with_seed(1337).row();
    let after = Utc::now().naive_utc();
    assert_eq!(seed, 1337);
    assert!(before <= origin_time && origin_time <= after);
    let (origin_time, _) = World::build().row();
    assert!(after <= origin_time);
}

#[test]
fn from_db_takes_what_was_found() {
    let found = World::from_db(Ok(row(1, 5))).unwrap();
    assert_eq!((found.id, found.seed), (1, 5));
    assert!(World::from_db(Err(StoreError::NotFound)).is_none());
    assert!(World::from_db(Err(StoreError::Failed)).is_none());
}

#[test]
fn save_keeps_a_stored_world() {
    let builder = World::build_with_seed(8);
    let saved = builder.save(Ok(row(2, 99))).ok().unwrap();
    assert_eq!((saved.id, saved.seed), (2, 99));
}

#[test]
fn save_asks_for_the_insert_when_nothing_is_stored() {
    let builder = World::build_with_seed(8);
    let row_before = builder.row();
    let pending: WorldBuilder = builder.save(Err(StoreError::NotFound)).err().unwrap();
    assert_eq!(pending.row(), row_before);
    let world = WorldBuilder::inserted(&vec![row(1, 8), row(2, 9)]);
    assert_eq!((world.id, world.seed), (1, 8));
}

#[test]
fn startup_keeps_a_world_of_the_same_seed() {
    let found = World::from(row(4, 1337));
    match World::startup(Some(found), 1337) {
        WorldStartup::Keep(world) => assert_eq!((world.id, world.seed), (4, 1337)),
        other => panic!("expected the stored world, got {:?}", other),
    }
}

#[test]
fn startup_replaces_a_world_of_another_seed() {
    let found = World::from(row(4, 1337));
    match World::startup(Some(found), 1338) {
        WorldStartup::Replace(builder) => assert_eq!(builder.row().1, 1338),
        other => panic!("expected a replacement, got {:?}", other),
    }
}

#[test]
fn startup_creates_a_world_when_none_is_stored() {
    match World::startup(None, -4) {
        WorldStartup::Create(builder) => assert_eq!(builder.row().1, -4),
        other => panic!("expected a new world, got {:?}", other),
    }
}

#[test]
fn builder_starts_from_the_time_and_seed_given() {
    let builder = WorldBuilder::starting(NaiveDateTime::MAX, -12);
    assert_eq!(builder.row(), (NaiveDateTime::MAX, -12));
}
