//! The per-frame movement step: propose a new position from the frame's
//! movement delta, re-canonicalize it, sample the tile under the
//! candidate centre and under the left and right edge of the entity's
//! footprint, and commit the move only when all three samples are
//! passable. Rejection is all-or-nothing: no partial or sliding movement.

use crate::position::canonical_position;
use crate::position::WorldPosition;
use crate::position::recanonicalize_position;
use crate::world::World;
use crate::world::get_tile_value;
use vstd::prelude::*;

verus! {

/// The whole game state that persists across frames: the player's
/// committed canonical position. Mutated only by a committed movement
/// step.
pub struct GameState {
    pub player_p: WorldPosition,
}

/// Whether the world point a position names can be occupied: the tile
/// it stands on is passable.
pub open spec fn world_point_is_empty(world: World, pos: WorldPosition) -> bool {
    world.is_passable(pos.abs_tile_x, pos.abs_tile_y)
}

/// The three sample positions a movement step validates: the
/// re-canonicalized candidate centre, and the candidate shifted left and
/// right by half the entity's width (the horizontal footprint; no
/// vertical footprint sampling is performed).
pub open spec fn movement_samples(
    world: World,
    pos: WorldPosition,
    delta_x: int,
    delta_y: int,
    half_width: int,
) -> (WorldPosition, WorldPosition, WorldPosition) {
    let side = world.tile_side_in_meters as int;
    let candidate = canonical_position(
        side,
        pos.abs_tile_x as int,
        pos.offset_x + delta_x,
        pos.abs_tile_y as int,
        pos.offset_y + delta_y,
    );
    let left = canonical_position(
        side,
        candidate.abs_tile_x as int,
        candidate.offset_x - half_width,
        candidate.abs_tile_y as int,
        candidate.offset_y as int,
    );
    let right = canonical_position(
        side,
        candidate.abs_tile_x as int,
        candidate.offset_x + half_width,
        candidate.abs_tile_y as int,
        candidate.offset_y as int,
    );
    (candidate, left, right)
}

/// Whether a movement step with these inputs commits: all three samples
/// stand on passable tiles.
pub open spec fn movement_is_allowed(
    world: World,
    pos: WorldPosition,
    delta_x: int,
    delta_y: int,
    half_width: int,
) -> bool {
    let (candidate, left, right) = movement_samples(world, pos, delta_x, delta_y, half_width);
    &&& world_point_is_empty(world, candidate)
    &&& world_point_is_empty(world, left)
    &&& world_point_is_empty(world, right)
}

/// The position stored after a movement step: the re-canonicalized
/// candidate when the move is allowed, the old position unchanged when
/// it is rejected.
pub open spec fn movement_result(
    world: World,
    pos: WorldPosition,
    delta_x: int,
    delta_y: int,
    half_width: int,
) -> WorldPosition {
    if movement_is_allowed(world, pos, delta_x, delta_y, half_width) {
        movement_samples(world, pos, delta_x, delta_y, half_width).0
    } else {
        pos
    }
}

/// Whether the world point a position names can be occupied.
pub fn is_world_point_empty(world: &World, pos: WorldPosition) -> (r: bool)
    requires
        world.wf(),
    ensures
        r == world_point_is_empty(*world, pos),
{
    let tile_value = get_tile_value(world, pos.abs_tile_x, pos.abs_tile_y);
    tile_value == 0
}

/// One frame's movement step for the player: offsets the stored position
/// by the frame's movement delta in position units, re-canonicalizes,
/// samples centre, left and right footprint edges, and commits the
/// candidate exactly when all three are passable. Returns whether the
/// move was committed; on rejection the stored position is unchanged.
pub fn move_player(
    world: &World,
    game_state: &mut GameState,
    delta_x: i32,
    delta_y: i32,
    half_width: i32,
) -> (moved: bool)
    requires
        world.wf(),
        i32::MIN <= old(game_state).player_p.offset_x + delta_x <= i32::MAX,
        i32::MIN <= old(game_state).player_p.offset_y + delta_y <= i32::MAX,
        0 <= half_width,
        world.tile_side_in_meters + half_width <= i32::MAX,
    ensures
        moved == movement_is_allowed(
            *world,
            old(game_state).player_p,
            delta_x as int,
            delta_y as int,
            half_width as int,
        ),
        final(game_state).player_p == movement_result(
            *world,
            old(game_state).player_p,
            delta_x as int,
            delta_y as int,
            half_width as int,
        ),
        !moved ==> *final(game_state) == *old(game_state),
        moved ==> final(game_state).player_p.is_canonical(world.tile_side_in_meters as int),
{
    let mut new_player_p = game_state.player_p;
    new_player_p.offset_x = new_player_p.offset_x + delta_x;
    new_player_p.offset_y = new_player_p.offset_y + delta_y;
    let new_player_p = recanonicalize_position(world, new_player_p);

    let mut player_left = new_player_p;
    player_left.offset_x = player_left.offset_x - half_width;
    let player_left = recanonicalize_position(world, player_left);

    let mut player_right = new_player_p;
    player_right.offset_x = player_right.offset_x + half_width;
    let player_right = recanonicalize_position(world, player_right);

    if is_world_point_empty(world, new_player_p) && is_world_point_empty(world, player_left)
        && is_world_point_empty(world, player_right) {
        game_state.player_p = new_player_p;
        true
    } else {
        false
    }
}

/// The movement direction the four digital buttons ask for, one unit
/// per axis: `up` means increasing y and `right` increasing x, and when
/// opposite buttons are both held, `down` wins over `up` and `right`
/// over `left`. The caller scales the unit direction by speed and frame
/// time into position units.
pub fn movement_direction(up: bool, down: bool, left: bool, right: bool) -> (d: (i32, i32))
    ensures
        d.0 == if right {
            1int
        } else if left {
            -1int
        } else {
            0int
        },
        d.1 == if down {
            -1int
        } else if up {
            1int
        } else {
            0int
        },
{
    let mut dplayer_x: i32 = 0;
    let mut dplayer_y: i32 = 0;
    if up {
        dplayer_y = 1;
    }
    if down {
        dplayer_y = -1;
    }
    if left {
        dplayer_x = -1;
    }
    if right {
        dplayer_x = 1;
    }
    (dplayer_x, dplayer_y)
}

/// A movement step keeps the stored position canonical: a committed
/// candidate comes out of re-canonicalization with both offsets in
/// `[0, tile_side_in_meters)`, and a rejected step keeps the old
/// canonical position. Every component that reads the stored position
/// between steps therefore sees it in canonical form.
pub proof fn lemma_movement_preserves_canonical(
    world: World,
    pos: WorldPosition,
    delta_x: int,
    delta_y: int,
    half_width: int,
)
    requires
        world.wf(),
        pos.is_canonical(world.tile_side_in_meters as int),
    ensures
        movement_result(world, pos, delta_x, delta_y, half_width).is_canonical(
            world.tile_side_in_meters as int,
        ),
{
    let side = world.tile_side_in_meters as int;
    vstd::arithmetic::div_mod::lemma_mod_bound(pos.offset_x + delta_x, side);
    vstd::arithmetic::div_mod::lemma_mod_bound(pos.offset_y + delta_y, side);
}

/// A movement step commits or rejects as a whole: when any of the three
/// samples is blocked — in particular when the centre is empty but the
/// left or right footprint edge is not — the stored position does not
/// change at all.
pub proof fn lemma_movement_all_or_nothing(
    world: World,
    pos: WorldPosition,
    delta_x: int,
    delta_y: int,
    half_width: int,
)
    requires
        ({
            let (candidate, left, right) = movement_samples(
                world,
                pos,
                delta_x,
                delta_y,
                half_width,
            );
            !world_point_is_empty(world, candidate) || !world_point_is_empty(world, left)
                || !world_point_is_empty(world, right)
        }),
    ensures
        movement_result(world, pos, delta_x, delta_y, half_width) == pos,
{
}

} // verus!
