use handmade::position::{recanonicalize_coord, recanonicalize_position, WorldPosition};
use handmade::world::{TileChunk, World};

fn test_world(tile_side_in_meters: i32) -> World {
    // One 4x4 chunk of passable tiles; the geometry is all that matters here.
    let chunk = TileChunk {
        tiles: vec![0u32; 16],
    };
    World::new(4, tile_side_in_meters, 60, 1, 1, vec![chunk]).unwrap()
}

#[test]
fn boundary_crossing_folds_whole_tiles() {
    // With a tile side of 1.4 (14 units of 0.1), an offset of 5.0 (50 units)
    // on tile 3 folds floor(5.0 / 1.4) = 3 tiles into the coordinate and
    // leaves 5.0 - 3 * 1.4 = 0.8 (8 units).
    let world = test_world(14);
    let pos = WorldPosition {
        abs_tile_x: 3,
        abs_tile_y: 0,
        offset_x: 50,
        offset_y: 0,
    };
    let r = recanonicalize_position(&world, pos);
    assert_eq!(r.abs_tile_x, 6);
    assert_eq!(r.offset_x, 8);
    assert_eq!(r.abs_tile_y, 0);
    assert_eq!(r.offset_y, 0);
}

#[test]
fn negative_offset_borrows_a_tile() {
    // With a tile side of 1.0 (10 units of 0.1), an offset of -0.2 (-2 units)
    // on tile 5 folds to tile 4 with offset 0.8 (8 units).
    let world = test_world(10);
    let pos = WorldPosition {
        abs_tile_x: 5,
        abs_tile_y: 5,
        offset_x: -2,
        offset_y: 0,
    };
    let r = recanonicalize_position(&world, pos);
    assert_eq!(r.abs_tile_x, 4);
    assert_eq!(r.offset_x, 8);
    assert_eq!(r.abs_tile_y, 5);
    assert_eq!(r.offset_y, 0);
}

#[test]
fn recanonicalize_is_idempotent() {
    let world = test_world(14);
    let positions = [
        WorldPosition {
            abs_tile_x: 3,
            abs_tile_y: 7,
            offset_x: 50,
            offset_y: -23,
        },
        WorldPosition {
            abs_tile_x: 0,
            abs_tile_y: 0,
            offset_x: -1,
            offset_y: -1,
        },
        WorldPosition {
            abs_tile_x: 4_000_000_000,
            abs_tile_y: 9,
            offset_x: 1_000_000,
            offset_y: 13,
        },
    ];
    for pos in positions {
        let once = recanonicalize_position(&world, pos);
        let twice = recanonicalize_position(&world, once);
        assert_eq!(once, twice);
    }
}

#[test]
fn offsets_end_in_range_after_recanonicalize() {
    let world = test_world(14);
    let offsets = [-100, -14, -1, 0, 7, 13, 14, 50, 2_000_000_000];
    for &off in &offsets {
        let pos = WorldPosition {
            abs_tile_x: 1000,
            abs_tile_y: 1000,
            offset_x: off,
            offset_y: off,
        };
        let r = recanonicalize_position(&world, pos);
        assert!(0 <= r.offset_x && r.offset_x < 14);
        assert!(0 <= r.offset_y && r.offset_y < 14);
    }
}

#[test]
fn tile_coordinate_wraps_at_the_range_boundary() {
    let world = test_world(10);
    let mut tile: u32 = 0;
    let mut rel: i32 = -2;
    recanonicalize_coord(&world, &mut tile, &mut rel);
    assert_eq!(tile, u32::MAX);
    assert_eq!(rel, 8);

    let mut tile: u32 = u32::MAX;
    let mut rel: i32 = 17;
    recanonicalize_coord(&world, &mut tile, &mut rel);
    assert_eq!(tile, 0);
    assert_eq!(rel, 7);
}

#[test]
fn canonical_position_is_unchanged() {
    let world = test_world(14);
    let pos = WorldPosition {
        abs_tile_x: 3,
        abs_tile_y: 3,
        offset_x: 13,
        offset_y: 0,
    };
    let r = recanonicalize_position(&world, pos);
    assert_eq!(r, pos);
}
