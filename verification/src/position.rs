//! Canonical world positions and the re-canonicalization algorithm.
//!
//! A `WorldPosition` names a tile by absolute tile coordinates and a
//! point within that tile by sub-tile offsets in integer position units.
//! The canonical form keeps each offset within `[0, tile_side_in_meters)`;
//! after movement the offsets drift out of that range and
//! `recanonicalize_position` folds whole tiles out of the offset into the
//! absolute tile coordinate, per axis, rounding toward negative infinity
//! so that negative offsets fold correctly. The absolute tile coordinate
//! wraps at the `u32` boundary: the world is open-ended.

use crate::world::World;
use vstd::arithmetic::div_mod::lemma_basic_div;
use vstd::arithmetic::div_mod::lemma_mod_add_multiples_vanish;
use vstd::arithmetic::div_mod::lemma_mod_bound;
use vstd::arithmetic::div_mod::lemma_small_mod;
use vstd::prelude::*;

verus! {

/// Where something is: an absolute tile coordinate pair plus a sub-tile
/// offset pair in position units. Canonical whenever any other component
/// reads it; allowed to be transiently non-canonical only on the way
/// into re-canonicalization.
#[derive(Clone, Copy, Debug, PartialEq, Eq, Structural)]
pub struct WorldPosition {
    pub abs_tile_x: u32,
    pub abs_tile_y: u32,
    pub offset_x: i32,
    pub offset_y: i32,
}

/// A `u32` tile coordinate moved by `delta` tiles, wrapping at the
/// representable range boundary (the open-ended world model).
pub open spec fn wrapped_tile(tile: int, delta: int) -> int {
    (tile + delta) % 0x1_0000_0000
}

/// The canonical position reached from tile `(tile_x, tile_y)` and
/// unconstrained sub-tile offsets `(rel_x, rel_y)`: each offset's whole
/// tile count (floor of offset over tile side) moves into the tile
/// coordinate, and the remainder in `[0, side)` stays as the offset.
pub open spec fn canonical_position(
    side: int,
    tile_x: int,
    rel_x: int,
    tile_y: int,
    rel_y: int,
) -> WorldPosition {
    WorldPosition {
        abs_tile_x: wrapped_tile(tile_x, rel_x / side) as u32,
        abs_tile_y: wrapped_tile(tile_y, rel_y / side) as u32,
        offset_x: (rel_x % side) as i32,
        offset_y: (rel_y % side) as i32,
    }
}

impl WorldPosition {
    /// Both sub-tile offsets lie within one tile side.
    pub open spec fn is_canonical(self, side: int) -> bool {
        &&& 0 <= self.offset_x < side
        &&& 0 <= self.offset_y < side
    }

    /// The canonical position this position folds to in `world`.
    pub open spec fn canonicalized(self, world: World) -> WorldPosition {
        canonical_position(
            world.tile_side_in_meters as int,
            self.abs_tile_x as int,
            self.offset_x as int,
            self.abs_tile_y as int,
            self.offset_y as int,
        )
    }
}

/// `u32::wrapping_add_signed` is addition modulo the `u32` range.
proof fn lemma_wrapping_add_signed_is_mod(x: u32, y: i32)
    ensures
        vstd::wrapping::u32_specs::wrapping_add_signed(x, y) == (x + y) % 0x1_0000_0000,
{
    if x + y > u32::MAX {
        lemma_mod_add_multiples_vanish(x + y - 0x1_0000_0000, 0x1_0000_0000);
        lemma_small_mod((x + y - 0x1_0000_0000) as nat, 0x1_0000_0000);
    } else if x + y < 0 {
        lemma_mod_add_multiples_vanish(x + y, 0x1_0000_0000);
        lemma_small_mod((x + y + 0x1_0000_0000) as nat, 0x1_0000_0000);
    } else {
        lemma_small_mod((x + y) as nat, 0x1_0000_0000);
    }
}

/// For a positive divisor, the Euclidean quotient of an `i32` by an `i32`
/// stays within the `i32` range, so `checked_div_euclid` and
/// `checked_rem_euclid` both succeed.
proof fn lemma_i32_euclid_in_range(rel: int, side: int)
    requires
        side >= 1,
        i32::MIN <= rel <= i32::MAX,
    ensures
        i32::MIN <= rel / side <= i32::MAX,
        0 <= rel % side < side,
{
    lemma_mod_bound(rel, side);
    assert(rel >= 0 ==> 0 <= rel / side <= rel) by (nonlinear_arith)
        requires
            side >= 1,
    ;
    assert(rel < 0 ==> rel <= rel / side <= 0) by (nonlinear_arith)
        requires
            side >= 1,
    ;
}

/// Restores one axis of the canonical-form invariant: folds the whole
/// tiles contained in `*tile_rel` into `*tile` (toward negative
/// infinity, so negative offsets borrow a tile) and keeps the remainder,
/// which lands in `[0, tile_side_in_meters)`. The tile coordinate wraps
/// at the `u32` range boundary.
pub fn recanonicalize_coord(world: &World, tile: &mut u32, tile_rel: &mut i32)
    requires
        world.wf(),
    ensures
        *final(tile_rel) == *old(tile_rel) as int % world.tile_side_in_meters as int,
        0 <= *final(tile_rel) < world.tile_side_in_meters,
        *final(tile) == wrapped_tile(
            *old(tile) as int,
            *old(tile_rel) as int / world.tile_side_in_meters as int,
        ),
{
    let side = world.tile_side_in_meters;
    let rel = *tile_rel;
    proof {
        lemma_i32_euclid_in_range(rel as int, side as int);
    }
    let offset = rel.checked_div_euclid(side).unwrap();
    let t = *tile;
    proof {
        lemma_wrapping_add_signed_is_mod(t, offset);
    }
    *tile = t.wrapping_add_signed(offset);
    *tile_rel = rel.checked_rem_euclid(side).unwrap();
}

/// Restores the canonical-form invariant on both axes independently.
/// Chunk-boundary crossing needs no explicit handling: when the absolute
/// tile coordinate crosses a chunk-mask boundary, the next chunk lookup
/// resolves to the neighbouring chunk by itself.
pub fn recanonicalize_position(world: &World, pos: WorldPosition) -> (r: WorldPosition)
    requires
        world.wf(),
    ensures
        r == pos.canonicalized(*world),
        r.is_canonical(world.tile_side_in_meters as int),
{
    let mut result = pos;
    recanonicalize_coord(world, &mut result.abs_tile_x, &mut result.offset_x);
    recanonicalize_coord(world, &mut result.abs_tile_y, &mut result.offset_y);
    proof {
        lemma_mod_bound(pos.abs_tile_x + pos.offset_x as int / world.tile_side_in_meters as int, 0x1_0000_0000);
        lemma_mod_bound(pos.abs_tile_y + pos.offset_y as int / world.tile_side_in_meters as int, 0x1_0000_0000);
    }
    result
}

/// Re-canonicalization is idempotent: a canonical position folds to
/// itself, so normalizing the result of `canonical_position` changes
/// nothing.
pub proof fn lemma_recanonicalize_idempotent(
    side: int,
    tile_x: int,
    rel_x: int,
    tile_y: int,
    rel_y: int,
)
    requires
        1 <= side <= i32::MAX,
    ensures
        ({
            let p = canonical_position(side, tile_x, rel_x, tile_y, rel_y);
            canonical_position(
                side,
                p.abs_tile_x as int,
                p.offset_x as int,
                p.abs_tile_y as int,
                p.offset_y as int,
            ) == p
        }),
{
    let p = canonical_position(side, tile_x, rel_x, tile_y, rel_y);
    lemma_mod_bound(rel_x, side);
    lemma_mod_bound(rel_y, side);
    lemma_mod_bound(tile_x + rel_x / side, 0x1_0000_0000);
    lemma_mod_bound(tile_y + rel_y / side, 0x1_0000_0000);
    lemma_basic_div(p.offset_x as int, side);
    lemma_basic_div(p.offset_y as int, side);
    lemma_small_mod(p.offset_x as nat, side as nat);
    lemma_small_mod(p.offset_y as nat, side as nat);
    lemma_small_mod(p.abs_tile_x as nat, 0x1_0000_0000);
    lemma_small_mod(p.abs_tile_y as nat, 0x1_0000_0000);
}

/// Re-canonicalizing twice equals re-canonicalizing once: for every
/// position, `p.canonicalized(world).canonicalized(world) ==
/// p.canonicalized(world)`.
pub proof fn lemma_canonicalized_idempotent(world: World, pos: WorldPosition)
    requires
        world.wf(),
    ensures
        pos.canonicalized(world).canonicalized(world) == pos.canonicalized(world),
{
    lemma_recanonicalize_idempotent(
        world.tile_side_in_meters as int,
        pos.abs_tile_x as int,
        pos.offset_x as int,
        pos.abs_tile_y as int,
        pos.offset_y as int,
    );
}

/// A canonical position is a fixed point of re-canonicalization in any
/// world whose tile side it is canonical for.
pub proof fn lemma_canonical_is_fixed_point(world: World, pos: WorldPosition)
    requires
        world.wf(),
        pos.is_canonical(world.tile_side_in_meters as int),
    ensures
        pos.canonicalized(world) == pos,
{
    let side = world.tile_side_in_meters as int;
    lemma_basic_div(pos.offset_x as int, side);
    lemma_basic_div(pos.offset_y as int, side);
    lemma_small_mod(pos.offset_x as nat, side as nat);
    lemma_small_mod(pos.offset_y as nat, side as nat);
    lemma_small_mod(pos.abs_tile_x as nat, 0x1_0000_0000);
    lemma_small_mod(pos.abs_tile_y as nat, 0x1_0000_0000);
}

} // verus!
