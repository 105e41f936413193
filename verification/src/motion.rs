//! Motion and orientation rules: hull facing from velocity, hostile drift
//! toward the player, bullet travel, and the kinematic position update.

use crate::geom::{
    clamp_spec, clamp_coord, scale_toward, scaled_div, unit_scaled_x, unit_scaled_y, Rot, Vec2,
    MILLI,
};
use crate::world::{Entity, GameWorld, Kind, Player};
use vstd::prelude::*;

verus! {

/// Squared-magnitude threshold (in squared milli-units) below which the
/// facing rule leaves the rotation alone, preventing jitter near rest; it
/// is one hundredth of a squared world unit.
pub const FACING_EPSILON_SQ: i64 = 10_000;

/// Derive the hull facing from the velocity: above the jitter threshold the
/// "up" axis of the hull points along the velocity, which in direction
/// vectors is the velocity rotated a quarter turn clockwise; at or below
/// the threshold the rotation is left unchanged. Translation is not touched
/// here; the physics integrator advances it from the velocity.
pub fn rotate_player(player: &mut Player)
    requires
        old(player).wf(),
    ensures
        final(player).wf(),
        final(player).pos == old(player).pos,
        final(player).vel == old(player).vel,
        final(player).force == old(player).force,
        old(player).vel.x * old(player).vel.x + old(player).vel.y * old(player).vel.y
            <= FACING_EPSILON_SQ ==> final(player).rot == old(player).rot,
        old(player).vel.x * old(player).vel.x + old(player).vel.y * old(player).vel.y
            > FACING_EPSILON_SQ ==> final(player).rot.x == old(player).vel.y
            && final(player).rot.y == -old(player).vel.x,
{
    let vx: i64 = player.vel.x;
    let vy: i64 = player.vel.y;
    proof {
        assert(0 <= vx * vx <= 100_000i64 * 100_000i64 && 0 <= vy * vy <= 100_000i64
            * 100_000i64) by (nonlinear_arith)
            requires
                -100_000 <= vx <= 100_000,
                -100_000 <= vy <= 100_000,
        ;
    }
    let m2: i64 = vx * vx + vy * vy;
    if m2 > FACING_EPSILON_SQ {
        proof {
            assert(!(vy == 0 && -vx == 0)) by (nonlinear_arith)
                requires
                    vx * vx + vy * vy > 10_000,
            ;
        }
        player.rot = Rot { x: vy, y: -vx };
    }
}

/// How far a hostile drifts toward the player each frame, in milli-units:
/// one world unit per frame, as the pursuit rule is deliberately coupled to
/// the frame rate rather than to elapsed time.
pub const DRIFT_STEP: i64 = MILLI;

/// The entity after one pursuit-drift step toward the player at `ppos`:
/// hostile objects move one `DRIFT_STEP` along the unit direction toward
/// the player (clamped to the arena); anything else, or an object exactly
/// on the player, is untouched.
pub open spec fn drift_target(e: Entity, ppos: Vec2) -> Entity {
    let dx = ppos.x - e.pos.x;
    let dy = ppos.y - e.pos.y;
    if e.kind != Kind::Object || (dx == 0 && dy == 0) {
        e
    } else {
        Entity {
            pos: Vec2 {
                x: clamp_spec(e.pos.x + unit_scaled_x(dx, dy, DRIFT_STEP as int)) as i64,
                y: clamp_spec(e.pos.y + unit_scaled_y(dx, dy, DRIFT_STEP as int)) as i64,
            },
            ..e
        }
    }
}

/// Pursuit drift: every hostile object takes one fixed-length step straight
/// toward the player's current position. The step length is per frame, not
/// per second.
pub fn move_objects(world: &mut GameWorld)
    requires
        old(world).wf(),
    ensures
        final(world).wf(),
        final(world).entities@.len() == old(world).entities@.len(),
        forall|i: int|
            0 <= i < old(world).entities@.len() ==> final(world).entities@[i] == drift_target(
                old(world).entities@[i],
                old(world).player.pos,
            ),
        final(world).player == old(world).player,
        final(world).turret == old(world).turret,
        final(world).mode == old(world).mode,
        final(world).state == old(world).state,
        final(world).object_timer == old(world).object_timer,
        final(world).pickup_timer == old(world).pickup_timer,
        final(world).next_id == old(world).next_id,
{
    let ppos: Vec2 = world.player.pos;
    let n: usize = world.entities.len();
    let mut moved: Vec<Entity> = Vec::new();
    let mut i: usize = 0;
    while i < n
        invariant
            n == world.entities@.len(),
            *world == *old(world),
            old(world).wf(),
            ppos == world.player.pos,
            i <= n,
            moved@.len() == i as int,
            forall|j: int|
                0 <= j < i as int ==> moved@[j] == drift_target(
                    world.entities@[j],
                    world.player.pos,
                ),
        decreases n - i,
    {
        let e: Entity = world.entities[i];
        let dx: i64 = ppos.x - e.pos.x;
        let dy: i64 = ppos.y - e.pos.y;
        if matches!(e.kind, Kind::Object) && !(dx == 0 && dy == 0) {
            let step: Vec2 = scale_toward(Vec2 { x: dx, y: dy }, DRIFT_STEP);
            let moved_e: Entity = Entity {
                pos: Vec2 { x: clamp_coord(e.pos.x + step.x), y: clamp_coord(e.pos.y + step.y) },
                ..e
            };
            moved.push(moved_e);
        } else {
            moved.push(e);
        }
        i = i + 1;
    }
    world.entities = moved;
}

/// Largest frame delta the travel rules accept, in milliseconds (one
/// minute).
pub const MAX_FRAME_MS: u64 = 60_000;

/// Bullet travel speed in milli-units per millisecond (1000 world units per
/// second).
pub const BULLET_SPEED: i64 = 1_000;

/// The entity after `dt_ms` of bullet travel: bullets advance along their
/// facing's "up" axis at `BULLET_SPEED`, scaled by the elapsed frame time
/// (clamped to the arena); anything else is untouched. For a rotation
/// vector `(x, y)` the "up" axis is `(-y, x)`.
pub open spec fn bullet_target(e: Entity, dt_ms: int) -> Entity {
    if e.kind != Kind::Bullet {
        e
    } else {
        let ux = -(e.rot.y as int);
        let uy = e.rot.x as int;
        let scale = BULLET_SPEED * dt_ms;
        Entity {
            pos: Vec2 {
                x: clamp_spec(e.pos.x + unit_scaled_x(ux, uy, scale)) as i64,
                y: clamp_spec(e.pos.y + unit_scaled_y(ux, uy, scale)) as i64,
            },
            ..e
        }
    }
}

/// Bullet travel: every bullet advances along its own "up" direction at
/// constant speed, scaled by the real elapsed frame time.
pub fn move_bullet(world: &mut GameWorld, dt_ms: u64)
    requires
        old(world).wf(),
        dt_ms <= MAX_FRAME_MS,
    ensures
        final(world).wf(),
        final(world).entities@.len() == old(world).entities@.len(),
        forall|i: int|
            0 <= i < old(world).entities@.len() ==> final(world).entities@[i] == bullet_target(
                old(world).entities@[i],
                dt_ms as int,
            ),
        final(world).player == old(world).player,
        final(world).turret == old(world).turret,
        final(world).mode == old(world).mode,
        final(world).state == old(world).state,
        final(world).object_timer == old(world).object_timer,
        final(world).pickup_timer == old(world).pickup_timer,
        final(world).next_id == old(world).next_id,
{
    let scale: i64 = BULLET_SPEED * (dt_ms as i64);
    let n: usize = world.entities.len();
    let mut moved: Vec<Entity> = Vec::new();
    let mut i: usize = 0;
    while i < n
        invariant
            n == world.entities@.len(),
            *world == *old(world),
            old(world).wf(),
            scale == BULLET_SPEED * dt_ms,
            0 <= scale <= 60_000_000,
            i <= n,
            moved@.len() == i as int,
            forall|j: int|
                0 <= j < i as int ==> moved@[j] == bullet_target(world.entities@[j], dt_ms as int),
        decreases n - i,
    {
        let e: Entity = world.entities[i];
        if matches!(e.kind, Kind::Bullet) {
            let step: Vec2 = scale_toward(Vec2 { x: -e.rot.y, y: e.rot.x }, scale);
            let moved_e: Entity = Entity {
                pos: Vec2 { x: clamp_coord(e.pos.x + step.x), y: clamp_coord(e.pos.y + step.y) },
                ..e
            };
            moved.push(moved_e);
        } else {
            moved.push(e);
        }
        i = i + 1;
    }
    world.entities = moved;
}

/// The kinematic position update the physics collaborator owes the player
/// between frames, made explicit for this model: each coordinate advances
/// by the velocity times the elapsed time, rounded toward zero, clamped to
/// the arena.
pub fn integrate_player(player: &mut Player, dt_ms: u64)
    requires
        old(player).wf(),
        dt_ms <= MAX_FRAME_MS,
    ensures
        final(player).wf(),
        final(player).pos.x == clamp_spec(
            old(player).pos.x + scaled_div(old(player).vel.x as int, dt_ms as int, MILLI as int),
        ),
        final(player).pos.y == clamp_spec(
            old(player).pos.y + scaled_div(old(player).vel.y as int, dt_ms as int, MILLI as int),
        ),
        final(player).vel == old(player).vel,
        final(player).rot == old(player).rot,
        final(player).force == old(player).force,
{
    let dx: i64 = axis_travel(player.vel.x, dt_ms);
    let dy: i64 = axis_travel(player.vel.y, dt_ms);
    player.pos.x = clamp_coord(player.pos.x + dx);
    player.pos.y = clamp_coord(player.pos.y + dy);
}

/// Distance one axis travels in `dt_ms` at velocity `v` milli-units per
/// second, rounded toward zero.
fn axis_travel(v: i64, dt_ms: u64) -> (d: i64)
    requires
        -100_000 <= v <= 100_000,
        dt_ms <= MAX_FRAME_MS,
    ensures
        d == scaled_div(v as int, dt_ms as int, MILLI as int),
        -6_000_000_000 <= d <= 6_000_000_000,
{
    let a: u64 = (if v >= 0 {
        v
    } else {
        -v
    }) as u64;
    proof {
        assert(a * dt_ms <= 100_000u64 * 60_000u64) by (nonlinear_arith)
            requires
                a <= 100_000u64,
                dt_ms <= 60_000u64,
        ;
        assert((a * dt_ms) / 1000 <= 6_000_000) by (nonlinear_arith)
            requires
                a * dt_ms <= 6_000_000_000u64,
        ;
    }
    let q: u64 = (a * dt_ms) / 1000;
    if v >= 0 {
        q as i64
    } else {
        -(q as i64)
    }
}

} // verus!
