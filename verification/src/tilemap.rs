//! The built-in starting tile map: a 256 x 256 chunk whose visible
//! upper-left corner holds a small arrangement of rooms and doorways.
//!
//! Each of the 18 authored rows covers 34 columns and is stored as a
//! bit mask, bit `x` set meaning tile `(x, y)` is blocked (tile code
//! `1`); every cell outside the authored region is passable (tile code
//! `0`).

use vstd::prelude::*;

verus! {

/// Tiles per side of the built-in map (one whole chunk).
pub const TILE_MAP_COUNT_X: u32 = 256;

/// Tiles per side of the built-in map (one whole chunk).
pub const TILE_MAP_COUNT_Y: u32 = 256;

/// Columns covered by each authored row of the visible map.
pub const VISIBLE_MAP_COLUMNS: u32 = 34;

/// Authored rows of the visible map.
pub const VISIBLE_MAP_ROWS: u32 = 18;

/// The blocked-tile bit mask of authored row `y`: bit `x` is set when
/// tile `(x, y)` of the visible map is blocked. Rows outside the
/// authored region are all clear.
pub open spec fn visible_map_row_bits(y: int) -> u64 {
    if y == 0 {
        0x3ffffffffu64
    } else if y == 1 {
        0x200032023u64
    } else if y == 2 {
        0x200034103u64
    } else if y == 3 {
        0x200030101u64
    } else if y == 4 {
        0x200000121u64
    } else if y == 5 {
        0x200032123u64
    } else if y == 6 {
        0x200031121u64
    } else if y == 7 {
        0x20003201fu64
    } else if y == 8 {
        0x3fdfffeffu64
    } else if y == 9 {
        0x3fdfffeffu64
    } else if y == 10 {
        0x200030001u64
    } else if y == 11 {
        0x200030001u64
    } else if y == 12 {
        0x200030001u64
    } else if y == 13 {
        0x200000001u64
    } else if y == 14 {
        0x200030001u64
    } else if y == 15 {
        0x200030001u64
    } else if y == 16 {
        0x200030001u64
    } else if y == 17 {
        0x3ffffffffu64
    } else {
        0u64
    }
}

/// The tile code of cell `(x, y)` of the built-in map: `1` where an
/// authored row's bit mask blocks the cell, `0` everywhere else.
pub open spec fn tile_map_value(y: int, x: int) -> u32 {
    if 0 <= y < VISIBLE_MAP_ROWS && 0 <= x < VISIBLE_MAP_COLUMNS {
        if (visible_map_row_bits(y) >> x as u64) & 1u64 == 1u64 {
            1u32
        } else {
            0u32
        }
    } else {
        0u32
    }
}

/// The blocked-tile bit mask of authored row `y`, `0` for rows outside
/// the authored region.
fn visible_map_row_bits_at(y: u32) -> (bits: u64)
    ensures
        bits == visible_map_row_bits(y as int),
{
    if y == 0 {
        0x3ffffffff
    } else if y == 1 {
        0x200032023
    } else if y == 2 {
        0x200034103
    } else if y == 3 {
        0x200030101
    } else if y == 4 {
        0x200000121
    } else if y == 5 {
        0x200032123
    } else if y == 6 {
        0x200031121
    } else if y == 7 {
        0x20003201f
    } else if y == 8 || y == 9 {
        0x3fdfffeff
    } else if y == 13 {
        0x200000001
    } else if y >= 10 && y <= 16 {
        0x200030001
    } else if y == 17 {
        0x3ffffffff
    } else {
        0
    }
}

/// Builds the tile codes of the built-in starting map: a row-major
/// `256 x 256` table whose visible upper-left corner is the authored
/// arrangement of rooms and doorways, passable everywhere else. The
/// result fills exactly one chunk of a world with `chunk_dim == 256`.
pub fn create_tilemap() -> (tiles: Vec<u32>)
    ensures
        tiles@.len() == TILE_MAP_COUNT_X * TILE_MAP_COUNT_Y,
        forall|y: int, x: int|
            0 <= y < TILE_MAP_COUNT_Y && 0 <= x < TILE_MAP_COUNT_X ==> tiles@[y
                * TILE_MAP_COUNT_X + x] == tile_map_value(y, x),
{
    let mut tiles: Vec<u32> = Vec::new();
    let mut y: u32 = 0;
    while y < TILE_MAP_COUNT_Y
        invariant
            y <= TILE_MAP_COUNT_Y,
            tiles@.len() == y * TILE_MAP_COUNT_X,
            forall|j: int, i: int|
                0 <= j < y && 0 <= i < TILE_MAP_COUNT_X ==> tiles@[j * TILE_MAP_COUNT_X + i]
                    == tile_map_value(j, i),
        decreases TILE_MAP_COUNT_Y - y,
    {
        let bits = visible_map_row_bits_at(y);
        let mut x: u32 = 0;
        while x < TILE_MAP_COUNT_X
            invariant
                x <= TILE_MAP_COUNT_X,
                y < TILE_MAP_COUNT_Y,
                bits == visible_map_row_bits(y as int),
                tiles@.len() == y * TILE_MAP_COUNT_X + x,
                forall|j: int, i: int|
                    0 <= j < y && 0 <= i < TILE_MAP_COUNT_X ==> tiles@[j * TILE_MAP_COUNT_X + i]
                        == tile_map_value(j, i),
                forall|i: int|
                    0 <= i < x ==> tiles@[y * TILE_MAP_COUNT_X + i] == tile_map_value(y as int, i),
            decreases TILE_MAP_COUNT_X - x,
        {
            let code: u32 = if y < VISIBLE_MAP_ROWS && x < VISIBLE_MAP_COLUMNS && ((bits >> (
            x as u64)) & 1) == 1 {
                1
            } else {
                0
            };
            tiles.push(code);
            x = x + 1;
        }
        y = y + 1;
    }
    tiles
}

} // verus!
