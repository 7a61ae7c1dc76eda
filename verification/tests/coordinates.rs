use tileworld::world::World;

#[test]
fn chunk_constants() {
    assert_eq!(World::CHUNK_SIDE_LENGTH, 64);
    assert_eq!(World::CHUNK_SIZE, 4096);
}

#[test]
fn tile_position_of_origin_chunk() {
    assert_eq!(World::get_tile_position_from_index([0, 0], 0), [0, 0]);
    assert_eq!(World::get_tile_position_from_index([0, 0], 2056), [8, 32]);
    assert_eq!(World::get_tile_position_from_index([0, 0], 4095), [63, 63]);
}

#[test]
fn tile_position_of_far_chunks() {
    assert_eq!(World::get_tile_position_from_index([3, -2], 65), [193, -127]);
    assert_eq!(World::get_tile_position_from_index([-1, -1], 0), [-64, -64]);
    assert_eq!(World::get_tile_position_from_index([-1, -1], 4095), [-1, -1]);
}

#[test]
fn tile_position_at_the_edges_of_the_world() {
    let highest = i64::MAX / 64;
    let lowest = i64::MIN / 64;
    assert_eq!(
        World::get_tile_position_from_index([highest, lowest], 4095),
        [i64::MAX, i64::MIN + 63]
    );
    assert_eq!(World::get_tile_position_from_index([lowest, highest], 0), [i64::MIN, i64::MAX - 63]);
}

#[test]
fn local_position_of_index() {
    assert_eq!(World::get_localized_tile_position_form_index(0), [0, 0]);
    assert_eq!(World::get_localized_tile_position_form_index(63), [63, 0]);
    assert_eq!(World::get_localized_tile_position_form_index(64), [0, 1]);
    assert_eq!(World::get_localized_tile_position_form_index(2056), [8, 32]);
    assert_eq!(World::get_localized_tile_position_form_index(4095), [63, 63]);
}

#[test]
fn chunk_index_of_offset() {
    assert_eq!(World::get_chunk_index([0, 0]), 0);
    assert_eq!(World::get_chunk_index([8, 32]), 2056);
    assert_eq!(World::get_chunk_index([63, 63]), 4095);
}

#[test]
fn index_round_trips_through_world_position() {
    for chunk in [[0i64, 0i64], [5, -7], [-1, -1], [i64::MAX / 64, i64::MIN / 64]] {
        for index in 0..World::CHUNK_SIZE {
            let [x, y] = World::get_tile_position_from_index(chunk, index);
            let offset = [(x - chunk[0] * 64) as u32, (y - chunk[1] * 64) as u32];
            assert_eq!(World::get_chunk_index(offset), index);
            let [local_x, local_y] = World::get_localized_tile_position_form_index(index);
            assert_eq!([local_x as u32, local_y as u32], offset);
        }
    }
}

#[test]
fn chunk_and_index_of_world_positions() {
    assert_eq!(World::get_chunk_and_index([0, 0]), ([0, 0], 0));
    assert_eq!(World::get_chunk_and_index([8, 32]), ([0, 0], 2056));
    assert_eq!(World::get_chunk_and_index([63, 63]), ([0, 0], 4095));
    assert_eq!(World::get_chunk_and_index([64, -1]), ([1, -1], 63 * 64));
    assert_eq!(World::get_chunk_and_index([-64, -65]), ([-1, -2], 63 * 64));
    assert_eq!(
        World::get_chunk_and_index([i64::MIN, i64::MAX]),
        ([i64::MIN / 64, i64::MAX / 64], 63 * 64)
    );
}

#[test]
fn chunks_at_the_edges_are_in_reach() {
    assert!(World::check_chunk([0, 0]));
    assert!(World::check_chunk([i64::MAX / 64, i64::MIN / 64]));
    assert!(!World::check_chunk([i64::MAX / 64 + 1, 0]));
    assert!(!World::check_chunk([0, i64::MIN / 64 - 1]));
    assert!(!World::check_chunk([i64::MAX, i64::MIN]));
}
