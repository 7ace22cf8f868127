use handmade::world::{
    get_chunk_position_for, get_tile_chunk, get_tile_chunk_value, get_tile_value,
    get_tile_value_unchecked, is_tile_passable, TileChunk, World, WorldConfigError,
};

fn chunk_with(dim: u32, blocked: &[(u32, u32)]) -> TileChunk {
    let mut tiles = vec![0u32; (dim * dim) as usize];
    for &(x, y) in blocked {
        tiles[(y * dim + x) as usize] = 1;
    }
    TileChunk { tiles }
}

#[test]
fn chunk_resolution_splits_high_and_low_bits() {
    // chunk_dim = 256 gives chunk_shift = 8 and chunk_mask = 255;
    // absolute tile 300 resolves to chunk 1, local tile 44.
    let world = World::new(256, 14, 60, 1, 1, vec![chunk_with(256, &[])]).unwrap();
    assert_eq!(world.chunk_shift, 8);
    assert_eq!(world.chunk_mask, 255);
    let p = get_chunk_position_for(&world, 300, 7);
    assert_eq!(p.tile_chunk_x, 1);
    assert_eq!(p.rel_tile_x, 44);
    assert_eq!(p.tile_chunk_y, 0);
    assert_eq!(p.rel_tile_y, 7);
}

#[test]
fn absent_chunk_reads_as_passable() {
    let world = World::new(256, 14, 60, 1, 1, vec![chunk_with(256, &[])]).unwrap();
    // Tile 300 lies in chunk 1, which the table does not hold.
    assert_eq!(get_tile_value(&world, 300, 300), 0);
    assert!(is_tile_passable(&world, 300, 300));
    assert_eq!(get_tile_value(&world, u32::MAX, u32::MAX), 0);
    assert!(is_tile_passable(&world, u32::MAX, u32::MAX));
}

#[test]
fn present_chunk_reads_stored_codes() {
    let world = World::new(8, 10, 60, 1, 1, vec![chunk_with(8, &[(4, 3), (0, 0)])]).unwrap();
    assert_eq!(get_tile_value(&world, 4, 3), 1);
    assert_eq!(get_tile_value(&world, 0, 0), 1);
    assert_eq!(get_tile_value(&world, 3, 3), 0);
    assert!(!is_tile_passable(&world, 4, 3));
    assert!(is_tile_passable(&world, 3, 4));
}

#[test]
fn nonzero_codes_other_than_one_also_block() {
    let mut tiles = vec![0u32; 64];
    tiles[(2 * 8 + 5) as usize] = 7;
    let world = World::new(8, 10, 60, 1, 1, vec![TileChunk { tiles }]).unwrap();
    assert_eq!(get_tile_value(&world, 5, 2), 7);
    assert!(!is_tile_passable(&world, 5, 2));
}

#[test]
fn chunk_lookup_inside_and_outside_the_table() {
    let chunks = vec![
        chunk_with(4, &[(1, 1)]),
        chunk_with(4, &[]),
        chunk_with(4, &[]),
        chunk_with(4, &[]),
        chunk_with(4, &[]),
        chunk_with(4, &[(2, 2)]),
    ];
    // A 3-wide, 2-tall chunk table.
    let world = World::new(4, 10, 60, 3, 2, chunks).unwrap();
    assert!(get_tile_chunk(&world, 0, 0).is_some());
    assert!(get_tile_chunk(&world, 2, 1).is_some());
    assert!(get_tile_chunk(&world, 3, 0).is_none());
    assert!(get_tile_chunk(&world, 0, 2).is_none());

    // Chunk (2, 1) is the last entry, row-major.
    let c = get_tile_chunk(&world, 2, 1).unwrap();
    assert_eq!(get_tile_value_unchecked(&world, c, 2, 2), 1);
    assert_eq!(get_tile_value_unchecked(&world, c, 1, 2), 0);
    assert_eq!(get_tile_chunk_value(&world, Some(c), 2, 2), 1);
    assert_eq!(get_tile_chunk_value(&world, None, 2, 2), 0);

    // Tiles across chunk seams: absolute tile (9, 6) is chunk (2, 1), local (1, 2).
    let world2 = World::new(
        4,
        10,
        60,
        3,
        2,
        vec![
            chunk_with(4, &[]),
            chunk_with(4, &[]),
            chunk_with(4, &[]),
            chunk_with(4, &[]),
            chunk_with(4, &[]),
            chunk_with(4, &[(1, 2)]),
        ],
    )
    .unwrap();
    assert_eq!(get_tile_value(&world2, 9, 6), 1);
    assert_eq!(get_tile_value(&world2, 9, 5), 0);
}

#[test]
fn construction_rejects_non_power_of_two_chunk_dim() {
    let r = World::new(6, 10, 60, 1, 1, vec![chunk_with(6, &[])]);
    assert_eq!(r.unwrap_err(), WorldConfigError::ChunkDimNotPowerOfTwo);
    let r = World::new(0, 10, 60, 1, 1, vec![]);
    assert_eq!(r.unwrap_err(), WorldConfigError::ChunkDimNotPowerOfTwo);
}

#[test]
fn construction_rejects_non_positive_tile_side() {
    let r = World::new(4, 0, 60, 1, 1, vec![chunk_with(4, &[])]);
    assert_eq!(r.unwrap_err(), WorldConfigError::TileSideNotPositive);
    let r = World::new(4, -14, 60, 1, 1, vec![chunk_with(4, &[])]);
    assert_eq!(r.unwrap_err(), WorldConfigError::TileSideNotPositive);
}

#[test]
fn construction_rejects_wrong_table_size() {
    let r = World::new(4, 10, 60, 2, 2, vec![chunk_with(4, &[])]);
    assert_eq!(r.unwrap_err(), WorldConfigError::ChunkTableSizeMismatch);
}

#[test]
fn construction_rejects_wrong_chunk_size() {
    let bad = TileChunk {
        tiles: vec![0u32; 15],
    };
    let r = World::new(4, 10, 60, 1, 1, vec![bad]);
    assert_eq!(r.unwrap_err(), WorldConfigError::ChunkTilesSizeMismatch);
}

#[test]
fn construction_accepts_a_valid_configuration() {
    let w = World::new(16, 14, 60, 2, 3, vec![
        chunk_with(16, &[]),
        chunk_with(16, &[]),
        chunk_with(16, &[]),
        chunk_with(16, &[]),
        chunk_with(16, &[]),
        chunk_with(16, &[]),
    ])
    .unwrap();
    assert_eq!(w.chunk_dim, 16);
    assert_eq!(w.chunk_shift, 4);
    assert_eq!(w.chunk_mask, 15);
    assert_eq!(w.tile_side_in_meters, 14);
    assert_eq!(w.tile_side_in_pixels, 60);
    assert_eq!(w.tile_chunk_count_x, 2);
    assert_eq!(w.tile_chunk_count_y, 3);
}
