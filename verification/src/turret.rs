//! Turret aim solver: turret rotation from the cursor's world position,
//! compensated for the hull's own rotation.

use crate::geom::{cmul_x, cmul_y, Rot, Vec2};
use crate::world::{Player, Turret};
use vstd::prelude::*;

verus! {

/// First component of the turret's local rotation for an aim displacement
/// `(dx, dy)` (player to cursor) under a hull rotation `(px, py)`: the aim
/// direction turned a quarter turn clockwise (the sprite's default facing
/// is "up"), composed with the inverse of the hull rotation, so the world
/// aim is independent of hull facing.
pub open spec fn turret_local_x(dx: int, dy: int, px: int, py: int) -> int {
    cmul_x(dy, -dx, px, -py)
}

/// Second component of the turret's local rotation; see `turret_local_x`.
pub open spec fn turret_local_y(dx: int, dy: int, px: int, py: int) -> int {
    cmul_y(dy, -dx, px, -py)
}

/// A complex product of two non-zero vectors is non-zero, by the identity
/// `|a*b|^2 == |a|^2 * |b|^2`.
pub proof fn lemma_cmul_nonzero(ax: int, ay: int, bx: int, by: int)
    requires
        !(ax == 0 && ay == 0),
        !(bx == 0 && by == 0),
    ensures
        !(cmul_x(ax, ay, bx, by) == 0 && cmul_y(ax, ay, bx, by) == 0),
{
    assert(!(ax * bx - ay * by == 0 && ax * by + ay * bx == 0)) by (nonlinear_arith)
        requires
            !(ax == 0 && ay == 0),
            !(bx == 0 && by == 0),
    ;
}

/// Aim the turret at the cursor's world position: the turret's rotation,
/// expressed in the player's rotated frame, becomes the direction from the
/// player to the cursor, turned a quarter turn clockwise, with the hull's
/// rotation divided out. A cursor exactly on the player's center gives no
/// direction, and the rule leaves the rotation unchanged for that frame.
pub fn rotate_turret(turret: &mut Turret, player: &Player, cursor_world: Vec2)
    requires
        old(turret).wf(),
        player.wf(),
        cursor_world.in_arena(),
    ensures
        final(turret).wf(),
        cursor_world == player.pos ==> final(turret).rot == old(turret).rot,
        cursor_world != player.pos ==> {
            let dx = cursor_world.x - player.pos.x;
            let dy = cursor_world.y - player.pos.y;
            final(turret).rot.x == turret_local_x(dx, dy, player.rot.x as int, player.rot.y as int)
                && final(turret).rot.y == turret_local_y(
                dx,
                dy,
                player.rot.x as int,
                player.rot.y as int,
            )
        },
{
    let dx: i64 = cursor_world.x - player.pos.x;
    let dy: i64 = cursor_world.y - player.pos.y;
    if dx == 0 && dy == 0 {
        return ;
    }
    let px: i64 = player.rot.x;
    let py: i64 = player.rot.y;
    proof {
        lemma_cmul_nonzero(dy as int, -dx as int, px as int, -py as int);
        assert(-200_000_000_000_000 <= dy * px <= 200_000_000_000_000 && -200_000_000_000_000 <= dx
            * py <= 200_000_000_000_000 && -200_000_000_000_000 <= dy * py <= 200_000_000_000_000
            && -200_000_000_000_000 <= dx * px <= 200_000_000_000_000) by (nonlinear_arith)
            requires
                -2_000_000_000 <= dx <= 2_000_000_000,
                -2_000_000_000 <= dy <= 2_000_000_000,
                -100_000 <= px <= 100_000,
                -100_000 <= py <= 100_000,
        ;
    }
    let rx: i64 = dy * px - dx * py;
    let ry: i64 = -(dy * py) - dx * px;
    proof {
        assert(rx == turret_local_x(dx as int, dy as int, px as int, py as int) && ry
            == turret_local_y(dx as int, dy as int, px as int, py as int)) by (nonlinear_arith)
            requires
                rx == dy * px - dx * py,
                ry == -(dy * py) - dx * px,
                turret_local_x(dx as int, dy as int, px as int, py as int) == dy * px - (-dx) * (
                -py),
                turret_local_y(dx as int, dy as int, px as int, py as int) == dy * (-py) + (-dx)
                    * px,
        ;
    }
    turret.rot = Rot { x: rx, y: ry };
}

/// Law: the turret aim is invariant under uniform rotation of the player.
/// Rotating the hull by `(tx, ty)` and re-aiming at the same world
/// displacement yields exactly the previous local rotation composed with
/// the inverse rotation `(tx, -ty)`: the local aim is reduced by just what
/// the hull gained.
/// Composing rotations as complex products is associative.
pub proof fn lemma_cmul_assoc(ax: int, ay: int, bx: int, by: int, cx: int, cy: int)
    ensures
        cmul_x(cmul_x(ax, ay, bx, by), cmul_y(ax, ay, bx, by), cx, cy) == cmul_x(
            ax,
            ay,
            cmul_x(bx, by, cx, cy),
            cmul_y(bx, by, cx, cy),
        ),
        cmul_y(cmul_x(ax, ay, bx, by), cmul_y(ax, ay, bx, by), cx, cy) == cmul_y(
            ax,
            ay,
            cmul_x(bx, by, cx, cy),
            cmul_y(bx, by, cx, cy),
        ),
{
    broadcast use vstd::arithmetic::mul::group_mul_properties;

    assert((ax * bx - ay * by) * cx - (ax * by + ay * bx) * cy == ax * (bx * cx - by * cy) - ay * (
    bx * cy + by * cx));
    assert((ax * bx - ay * by) * cy + (ax * by + ay * bx) * cx == ax * (bx * cy + by * cx) + ay * (
    bx * cx - by * cy));
}

pub proof fn lemma_aim_frame_compensation(dx: int, dy: int, px: int, py: int, tx: int, ty: int)
    ensures
        turret_local_x(dx, dy, cmul_x(px, py, tx, ty), cmul_y(px, py, tx, ty)) == cmul_x(
            turret_local_x(dx, dy, px, py),
            turret_local_y(dx, dy, px, py),
            tx,
            -ty,
        ),
        turret_local_y(dx, dy, cmul_x(px, py, tx, ty), cmul_y(px, py, tx, ty)) == cmul_y(
            turret_local_x(dx, dy, px, py),
            turret_local_y(dx, dy, px, py),
            tx,
            -ty,
        ),
{
    // The conjugate of a product is the product of the conjugates.
    assert(px * tx - (-py) * (-ty) == px * tx - py * ty) by (nonlinear_arith);
    assert(px * (-ty) + (-py) * tx == -(px * ty + py * tx)) by (nonlinear_arith);
    assert(cmul_x(px, -py, tx, -ty) == cmul_x(px, py, tx, ty));
    assert(cmul_y(px, -py, tx, -ty) == -cmul_y(px, py, tx, ty));
    lemma_cmul_assoc(dy, -dx, px, -py, tx, -ty);
}

} // verus!
