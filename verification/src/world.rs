//! The tile world: fixed-size square chunks of tile codes, addressed by
//! chunk coordinates, plus the geometric constants that relate absolute
//! tile coordinates to chunk coordinates.
//!
//! A tile code of `0` means the tile is passable; any nonzero code means
//! it is blocked. An absolute tile coordinate resolves to a chunk by the
//! high bits (`abs >> chunk_shift`) and to a cell inside the chunk by the
//! low bits (`abs & chunk_mask`); this is why `chunk_dim` must be a power
//! of two. A coordinate whose chunk is absent reads as tile code `0`.

use vstd::arithmetic::power2::pow2;
use vstd::bits::lemma_u32_low_bits_mask_is_mod;
use vstd::bits::lemma_u32_shl_is_mul;
use vstd::bits::lemma_u32_shr_is_div;
use vstd::bits::low_bits_mask;
use vstd::prelude::*;

verus! {

/// A square block of `chunk_dim x chunk_dim` tile codes, row-major.
#[derive(Debug)]
pub struct TileChunk {
    pub tiles: Vec<u32>,
}

impl TileChunk {
    /// The chunk holds exactly one code per cell of a `chunk_dim`-sided
    /// square.
    pub open spec fn wf(self, chunk_dim: u32) -> bool {
        self.tiles@.len() == chunk_dim * chunk_dim
    }

    /// The tile code at cell `(tile_x, tile_y)` of the chunk.
    pub open spec fn tile_at(self, chunk_dim: u32, tile_x: u32, tile_y: u32) -> u32 {
        self.tiles@[tile_y * chunk_dim + tile_x]
    }
}

/// Coordinates of a chunk in the chunk table, and of a tile within that
/// chunk; derived from an absolute tile coordinate, never stored.
pub struct TileChunkPosition {
    pub tile_chunk_x: u32,
    pub tile_chunk_y: u32,
    pub rel_tile_x: u32,
    pub rel_tile_y: u32,
}

/// Why a `World` could not be built from the given configuration.
#[derive(Clone, Copy, Debug, PartialEq, Eq, Structural)]
pub enum WorldConfigError {
    /// `chunk_dim` is not a power of two, so shift/mask chunk resolution
    /// would be wrong.
    ChunkDimNotPowerOfTwo,
    /// `tile_side_in_meters` is zero or negative.
    TileSideNotPositive,
    /// The chunk table does not hold `count_x * count_y` chunks.
    ChunkTableSizeMismatch,
    /// Some chunk does not hold `chunk_dim * chunk_dim` tile codes.
    ChunkTilesSizeMismatch,
}

/// The world: geometric constants plus the table of loaded chunks,
/// `tile_chunk_count_x` wide and `tile_chunk_count_y` tall, row-major.
///
/// `tile_side_in_meters` is the side of one tile in integer position
/// units (the fixed-point unit in which all sub-tile offsets are
/// measured); `tile_side_in_pixels` is its side on screen, used only by
/// the rendering layer.
#[derive(Debug)]
pub struct World {
    pub chunk_shift: u32,
    pub chunk_mask: u32,
    pub chunk_dim: u32,
    pub tile_side_in_meters: i32,
    pub tile_side_in_pixels: i32,
    pub tile_chunk_count_x: u32,
    pub tile_chunk_count_y: u32,
    pub tile_chunks: Vec<TileChunk>,
}

impl World {
    /// The configuration invariant every world built by `World::new`
    /// satisfies: a power-of-two chunk side with matching shift and mask,
    /// a positive tile side, and a chunk table of the stated extent whose
    /// chunks all have the right size.
    pub open spec fn wf(self) -> bool {
        &&& self.chunk_shift < 32
        &&& self.chunk_dim == (1u32 << self.chunk_shift)
        &&& self.chunk_dim >= 1
        &&& self.chunk_mask == self.chunk_dim - 1
        &&& self.tile_side_in_meters >= 1
        &&& self.tile_chunks@.len() == self.tile_chunk_count_x * self.tile_chunk_count_y
        &&& forall|i: int|
            0 <= i < self.tile_chunks@.len() ==> (#[trigger] self.tile_chunks@[i]).wf(
                self.chunk_dim,
            )
    }

    /// The chunk coordinate an absolute tile coordinate falls in.
    pub open spec fn chunk_coord_of(self, abs_tile: u32) -> u32 {
        abs_tile / self.chunk_dim
    }

    /// The tile coordinate within its chunk.
    pub open spec fn chunk_local_of(self, abs_tile: u32) -> u32 {
        abs_tile % self.chunk_dim
    }

    /// Whether the chunk table holds a chunk at `(chunk_x, chunk_y)`.
    pub open spec fn has_chunk(self, chunk_x: u32, chunk_y: u32) -> bool {
        chunk_x < self.tile_chunk_count_x && chunk_y < self.tile_chunk_count_y
    }

    /// Row-major index of chunk `(chunk_x, chunk_y)` in the chunk table.
    pub open spec fn chunk_index(self, chunk_x: u32, chunk_y: u32) -> int {
        chunk_y * self.tile_chunk_count_x + chunk_x
    }

    /// The tile code stored at an absolute tile coordinate: the code in
    /// its chunk, or `0` (passable) when that chunk is absent.
    pub open spec fn tile_value(self, abs_tile_x: u32, abs_tile_y: u32) -> u32 {
        let chunk_x = self.chunk_coord_of(abs_tile_x);
        let chunk_y = self.chunk_coord_of(abs_tile_y);
        if self.has_chunk(chunk_x, chunk_y) {
            self.tile_chunks@[self.chunk_index(chunk_x, chunk_y)].tile_at(
                self.chunk_dim,
                self.chunk_local_of(abs_tile_x),
                self.chunk_local_of(abs_tile_y),
            )
        } else {
            0u32
        }
    }

    /// A tile is passable exactly when its code is `0`.
    pub open spec fn is_passable(self, abs_tile_x: u32, abs_tile_y: u32) -> bool {
        self.tile_value(abs_tile_x, abs_tile_y) == 0
    }
}

/// Whether `chunk_dim` is a power of two representable in a `u32`.
pub open spec fn chunk_dim_is_power_of_two(chunk_dim: u32) -> bool {
    exists|s: u32| s < 32 && chunk_dim == #[trigger] (1u32 << s)
}

/// The configuration error `World::new` reports for these inputs, checked
/// in order, or `None` when the configuration is acceptable.
pub open spec fn world_config_error(
    chunk_dim: u32,
    tile_side_in_meters: i32,
    tile_chunk_count_x: u32,
    tile_chunk_count_y: u32,
    tile_chunks: Seq<TileChunk>,
) -> Option<WorldConfigError> {
    if !chunk_dim_is_power_of_two(chunk_dim) {
        Some(WorldConfigError::ChunkDimNotPowerOfTwo)
    } else if tile_side_in_meters < 1 {
        Some(WorldConfigError::TileSideNotPositive)
    } else if tile_chunks.len() != tile_chunk_count_x * tile_chunk_count_y {
        Some(WorldConfigError::ChunkTableSizeMismatch)
    } else if exists|i: int| 0 <= i < tile_chunks.len() && !(#[trigger] tile_chunks[i]).wf(
        chunk_dim,
    ) {
        Some(WorldConfigError::ChunkTilesSizeMismatch)
    } else {
        None
    }
}

impl World {
    /// Builds a world after validating its configuration: `chunk_dim`
    /// must be a power of two (shift/mask chunk resolution depends on
    /// it), the tile side must be positive, and the chunk table must
    /// hold `tile_chunk_count_x * tile_chunk_count_y` chunks of
    /// `chunk_dim * chunk_dim` tile codes each. A bad configuration
    /// aborts construction with the first error in that order.
    pub fn new(
        chunk_dim: u32,
        tile_side_in_meters: i32,
        tile_side_in_pixels: i32,
        tile_chunk_count_x: u32,
        tile_chunk_count_y: u32,
        tile_chunks: Vec<TileChunk>,
    ) -> (r: Result<World, WorldConfigError>)
        ensures
            r is Ok <==> world_config_error(
                chunk_dim,
                tile_side_in_meters,
                tile_chunk_count_x,
                tile_chunk_count_y,
                tile_chunks@,
            ) is None,
            r matches Err(e) ==> Some(e) == world_config_error(
                chunk_dim,
                tile_side_in_meters,
                tile_chunk_count_x,
                tile_chunk_count_y,
                tile_chunks@,
            ),
            r matches Ok(w) ==> {
                &&& w.wf()
                &&& w.chunk_dim == chunk_dim
                &&& w.chunk_mask == chunk_dim - 1
                &&& w.tile_side_in_meters == tile_side_in_meters
                &&& w.tile_side_in_pixels == tile_side_in_pixels
                &&& w.tile_chunk_count_x == tile_chunk_count_x
                &&& w.tile_chunk_count_y == tile_chunk_count_y
                &&& w.tile_chunks == tile_chunks
            },
    {
        let mut chunk_shift: u32 = 0;
        let mut found = false;
        let mut s: u32 = 0;
        while s < 32
            invariant
                s <= 32,
                found ==> chunk_shift < 32 && chunk_dim == (1u32 << chunk_shift),
                !found ==> forall|t: u32| t < s ==> chunk_dim != (1u32 << t),
            decreases 32 - s,
        {
            if !found && (1u32 << s) == chunk_dim {
                found = true;
                chunk_shift = s;
            }
            s = s + 1;
        }
        if !found {
            return Err(WorldConfigError::ChunkDimNotPowerOfTwo);
        }
        proof {
            vstd::arithmetic::power2::lemma_pow2_pos(chunk_shift as nat);
            vstd::bits::lemma_u32_pow2_no_overflow(chunk_shift as nat);
            lemma_u32_shl_is_mul(1u32, chunk_shift);
            assert(chunk_dim == (1u32 << chunk_shift));
            assert(chunk_dim_is_power_of_two(chunk_dim));
        }
        if tile_side_in_meters < 1 {
            return Err(WorldConfigError::TileSideNotPositive);
        }
        proof {
            assert((tile_chunk_count_x as int) * (tile_chunk_count_y as int)
                < 0x1_0000_0000_0000_0000) by (nonlinear_arith)
                requires
                    tile_chunk_count_x < 0x1_0000_0000,
                    tile_chunk_count_y < 0x1_0000_0000,
            ;
        }
        let expected_chunks: u64 = (tile_chunk_count_x as u64) * (tile_chunk_count_y as u64);
        if (tile_chunks.len() as u64) != expected_chunks {
            return Err(WorldConfigError::ChunkTableSizeMismatch);
        }
        proof {
            assert((chunk_dim as int) * (chunk_dim as int) < 0x1_0000_0000_0000_0000)
                by (nonlinear_arith)
                requires
                    chunk_dim < 0x1_0000_0000,
            ;
        }
        let tiles_per_chunk: u64 = (chunk_dim as u64) * (chunk_dim as u64);
        let mut i: usize = 0;
        while i < tile_chunks.len()
            invariant
                i <= tile_chunks@.len(),
                tiles_per_chunk == (chunk_dim as int) * (chunk_dim as int),
                forall|j: int| 0 <= j < i ==> (#[trigger] tile_chunks@[j]).wf(chunk_dim),
                chunk_dim_is_power_of_two(chunk_dim),
                tile_side_in_meters >= 1,
                tile_chunks@.len() == tile_chunk_count_x * tile_chunk_count_y,
            decreases tile_chunks@.len() - i,
        {
            if (tile_chunks[i].tiles.len() as u64) != tiles_per_chunk {
                proof {
                    assert(!tile_chunks@[i as int].wf(chunk_dim));
                    assert(exists|j: int|
                        0 <= j < tile_chunks@.len() && !(#[trigger] tile_chunks@[j]).wf(chunk_dim));
                }
                return Err(WorldConfigError::ChunkTilesSizeMismatch);
            }
            i = i + 1;
        }
        Ok(
            World {
                chunk_shift,
                chunk_mask: chunk_dim - 1,
                chunk_dim,
                tile_side_in_meters,
                tile_side_in_pixels,
                tile_chunk_count_x,
                tile_chunk_count_y,
                tile_chunks,
            },
        )
    }
}

/// An absolute tile coordinate whose chunk is absent from the table
/// always reads as passable.
pub proof fn lemma_absent_chunk_passable(world: World, abs_tile_x: u32, abs_tile_y: u32)
    requires
        !world.has_chunk(world.chunk_coord_of(abs_tile_x), world.chunk_coord_of(abs_tile_y)),
    ensures
        world.tile_value(abs_tile_x, abs_tile_y) == 0,
        world.is_passable(abs_tile_x, abs_tile_y),
{
}

/// A chunk coordinate inside the table indexes a chunk of the table, and
/// every chunk of a well-formed world has the well-formed size.
pub proof fn lemma_chunk_index_in_range(world: World, chunk_x: u32, chunk_y: u32)
    requires
        world.wf(),
        world.has_chunk(chunk_x, chunk_y),
    ensures
        0 <= world.chunk_index(chunk_x, chunk_y) < world.tile_chunks@.len(),
        world.tile_chunks@[world.chunk_index(chunk_x, chunk_y)].wf(world.chunk_dim),
{
    assert((chunk_y as int) * (world.tile_chunk_count_x as int) + (chunk_x as int) < (
    world.tile_chunk_count_x as int) * (world.tile_chunk_count_y as int)) by (nonlinear_arith)
        requires
            chunk_x < world.tile_chunk_count_x,
            chunk_y < world.tile_chunk_count_y,
    ;
}

/// The chunk at `(tile_chunk_x, tile_chunk_y)`, or `None` when those
/// coordinates lie outside the chunk table; absence is a valid, silent
/// result.
pub fn get_tile_chunk<'a>(world: &'a World, tile_chunk_x: u32, tile_chunk_y: u32) -> (r: Option<
    &'a TileChunk,
>)
    requires
        world.wf(),
    ensures
        r is Some <==> world.has_chunk(tile_chunk_x, tile_chunk_y),
        r matches Some(chunk) ==> *chunk == world.tile_chunks@[world.chunk_index(
            tile_chunk_x,
            tile_chunk_y,
        )],
{
    if tile_chunk_x < world.tile_chunk_count_x && tile_chunk_y < world.tile_chunk_count_y {
        proof {
            // The chunk table is an in-memory vector, so its length — and
            // with it every index below it — fits in a usize.
            assert(world.tile_chunks.len() == world.tile_chunks@.len());
            lemma_chunk_index_in_range(*world, tile_chunk_x, tile_chunk_y);
        }
        let index: usize = (tile_chunk_y as usize) * (world.tile_chunk_count_x as usize) + (
        tile_chunk_x as usize);
        Some(&world.tile_chunks[index])
    } else {
        None
    }
}

/// The tile code at cell `(tile_x, tile_y)` of a chunk of this world.
/// Callers must pre-validate the cell coordinates against `chunk_dim`;
/// out-of-range access is a contract violation, not a recoverable error.
pub fn get_tile_value_unchecked(
    world: &World,
    tile_chunk: &TileChunk,
    tile_x: u32,
    tile_y: u32,
) -> (r: u32)
    requires
        world.wf(),
        tile_chunk.wf(world.chunk_dim),
        tile_x < world.chunk_dim,
        tile_y < world.chunk_dim,
    ensures
        r == tile_chunk.tile_at(world.chunk_dim, tile_x, tile_y),
{
    proof {
        // The chunk's tile vector is in memory, so its length — and with
        // it every index below it — fits in a usize.
        assert(tile_chunk.tiles.len() == tile_chunk.tiles@.len());
        assert((tile_y as int) * (world.chunk_dim as int) + (tile_x as int) < (
        world.chunk_dim as int) * (world.chunk_dim as int)) by (nonlinear_arith)
            requires
                tile_x < world.chunk_dim,
                tile_y < world.chunk_dim,
        ;
    }
    let index: usize = (tile_y as usize) * (world.chunk_dim as usize) + (tile_x as usize);
    tile_chunk.tiles[index]
}

/// The tile code at cell `(test_tile_x, test_tile_y)` of an optional
/// chunk: the stored code when the chunk is there, `0` when it is not.
pub fn get_tile_chunk_value(
    world: &World,
    tile_chunk: Option<&TileChunk>,
    test_tile_x: u32,
    test_tile_y: u32,
) -> (r: u32)
    requires
        world.wf(),
        test_tile_x < world.chunk_dim,
        test_tile_y < world.chunk_dim,
        tile_chunk matches Some(chunk) ==> chunk.wf(world.chunk_dim),
    ensures
        r == match tile_chunk {
            Some(chunk) => chunk.tile_at(world.chunk_dim, test_tile_x, test_tile_y),
            None => 0u32,
        },
{
    match tile_chunk {
        Some(chunk) => get_tile_value_unchecked(world, chunk, test_tile_x, test_tile_y),
        None => 0,
    }
}

/// Splits an absolute tile coordinate pair into chunk coordinates (the
/// high bits) and within-chunk tile coordinates (the low bits).
pub fn get_chunk_position_for(world: &World, abs_tile_x: u32, abs_tile_y: u32) -> (r:
    TileChunkPosition)
    requires
        world.wf(),
    ensures
        r.tile_chunk_x == world.chunk_coord_of(abs_tile_x),
        r.tile_chunk_y == world.chunk_coord_of(abs_tile_y),
        r.rel_tile_x == world.chunk_local_of(abs_tile_x),
        r.rel_tile_y == world.chunk_local_of(abs_tile_y),
        r.rel_tile_x < world.chunk_dim,
        r.rel_tile_y < world.chunk_dim,
{
    proof {
        lemma_shift_mask_split(*world, abs_tile_x);
        lemma_shift_mask_split(*world, abs_tile_y);
    }
    TileChunkPosition {
        tile_chunk_x: abs_tile_x >> world.chunk_shift,
        tile_chunk_y: abs_tile_y >> world.chunk_shift,
        rel_tile_x: abs_tile_x & world.chunk_mask,
        rel_tile_y: abs_tile_y & world.chunk_mask,
    }
}

/// With `chunk_dim == 1 << chunk_shift` and `chunk_mask == chunk_dim - 1`,
/// shifting selects the chunk coordinate and masking the local one.
proof fn lemma_shift_mask_split(world: World, abs_tile: u32)
    requires
        world.wf(),
    ensures
        abs_tile >> world.chunk_shift == world.chunk_coord_of(abs_tile),
        abs_tile & world.chunk_mask == world.chunk_local_of(abs_tile),
        world.chunk_local_of(abs_tile) < world.chunk_dim,
{
    let s = world.chunk_shift;
    vstd::arithmetic::power2::lemma_pow2_pos(s as nat);
    vstd::bits::lemma_u32_pow2_no_overflow(s as nat);
    lemma_u32_shl_is_mul(1u32, s);
    assert(world.chunk_dim == pow2(s as nat));
    lemma_u32_shr_is_div(abs_tile, s);
    assert(world.chunk_mask == low_bits_mask(s as nat));
    lemma_u32_low_bits_mask_is_mod(abs_tile, s as nat);
    vstd::arithmetic::div_mod::lemma_mod_bound(abs_tile as int, world.chunk_dim as int);
}

/// The tile code at an absolute tile coordinate: resolves the chunk by
/// shift/mask and reads the cell, or reports `0` (passable) when the
/// chunk is absent.
pub fn get_tile_value(world: &World, abs_tile_x: u32, abs_tile_y: u32) -> (r: u32)
    requires
        world.wf(),
    ensures
        r == world.tile_value(abs_tile_x, abs_tile_y),
{
    let chunk_pos = get_chunk_position_for(world, abs_tile_x, abs_tile_y);
    let tile_chunk = get_tile_chunk(world, chunk_pos.tile_chunk_x, chunk_pos.tile_chunk_y);
    proof {
        if world.has_chunk(chunk_pos.tile_chunk_x, chunk_pos.tile_chunk_y) {
            lemma_chunk_index_in_range(*world, chunk_pos.tile_chunk_x, chunk_pos.tile_chunk_y);
        }
    }
    get_tile_chunk_value(world, tile_chunk, chunk_pos.rel_tile_x, chunk_pos.rel_tile_y)
}

/// Whether the tile at an absolute tile coordinate can be occupied: its
/// code is `0`. A coordinate in an absent chunk is passable.
pub fn is_tile_passable(world: &World, abs_tile_x: u32, abs_tile_y: u32) -> (r: bool)
    requires
        world.wf(),
    ensures
        r == world.is_passable(abs_tile_x, abs_tile_y),
{
    get_tile_value(world, abs_tile_x, abs_tile_y) == 0
}

} // verus!
