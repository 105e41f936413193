//! Boundary clamp: the final authority on the player's position each frame.

use crate::geom::COORD_LIMIT;
use crate::world::Player;
use vstd::prelude::*;

verus! {

/// How far inside the opposite edge a wrapped player lands, in milli-units
/// (one world unit), so the wrap does not re-trigger at once.
pub const WRAP_INSET: i64 = 1_000;

/// A coordinate after the wrap rule for a half-extent of `half`: past
/// either edge it is teleported just inside the opposite edge; otherwise it
/// is untouched.
pub open spec fn wrap_spec(x: int, half: int) -> int {
    if x > half {
        -half + WRAP_INSET
    } else if x < -half {
        half - WRAP_INSET
    } else {
        x
    }
}

/// Wrap the player to the visible window extents: on each axis, a position
/// past half the window size is teleported to the opposite edge with a
/// one-unit inset. Runs after all motion and collision rules, so it is the
/// final authority on the position for the frame.
pub fn check_boundaries(player: &mut Player, half_w: i64, half_h: i64)
    requires
        old(player).wf(),
        0 <= half_w <= COORD_LIMIT,
        0 <= half_h <= COORD_LIMIT,
    ensures
        final(player).wf(),
        final(player).pos.x == wrap_spec(old(player).pos.x as int, half_w as int),
        final(player).pos.y == wrap_spec(old(player).pos.y as int, half_h as int),
        final(player).vel == old(player).vel,
        final(player).rot == old(player).rot,
        final(player).force == old(player).force,
{
    if player.pos.x > half_w {
        player.pos.x = -half_w + WRAP_INSET;
    } else if player.pos.x < -half_w {
        player.pos.x = half_w - WRAP_INSET;
    }
    if player.pos.y > half_h {
        player.pos.y = -half_h + WRAP_INSET;
    } else if player.pos.y < -half_h {
        player.pos.y = half_h - WRAP_INSET;
    }
}

/// Law: for any window at least one unit across, the wrap is idempotent
/// and confines the coordinate: a wrapped coordinate lies within the
/// extents, strictly within them if the wrap moved it, and wrapping again
/// changes nothing.
pub proof fn lemma_wrap_settles(x: int, half: int)
    requires
        WRAP_INSET <= half,
    ensures
        -half <= wrap_spec(x, half) <= half,
        x > half || x < -half ==> -half < wrap_spec(x, half) < half,
        wrap_spec(wrap_spec(x, half), half) == wrap_spec(x, half),
{
}

} // verus!
