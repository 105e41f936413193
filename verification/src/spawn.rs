//! Spawn director: two independent periodic timers that create hostile
//! objects and pickups, and the fire rule that creates bullets.

use crate::geom::{Rot, Vec2};
use crate::rng::random_in_range;
use crate::timer::{fires_at, next_at, MAX_TICK_MS};
use crate::world::{
    Entity, GameWorld, Kind, Mode, BULLET_RADIUS, OBJECT_RADIUS_PURSUIT, OBJECT_RADIUS_WELL,
    PICKUP_RADIUS,
};
use vstd::prelude::*;

verus! {

/// Smallest random margin past the window edge at which a pursuit-mode
/// hostile appears, in milli-units (10 world units).
pub const SPAWN_MARGIN_MIN: i64 = 10_000;

/// One past the largest such margin, in milli-units (250 world units).
pub const SPAWN_MARGIN_MAX: i64 = 250_000;

/// Half-extent of the fixed square gravity-well hostiles appear in, in
/// milli-units (600 world units), independent of the window size.
pub const WELL_SPAWN_HALF: i64 = 600_000;

/// Half-extent of the fixed square pickups appear in, in milli-units (500
/// world units).
pub const PICKUP_SPAWN_HALF: i64 = 500_000;

/// Largest window half-extent the spawn rules accept; a spawn margin past
/// it still lies within the arena.
pub const WINDOW_HALF_LIMIT: i64 = 999_750_000;

/// Where a pursuit-mode hostile appears: on each axis independently, one of
/// the two rings just outside the window's half-extent, offset by the
/// drawn margin, on the far (positive) or near (negative) side.
pub open spec fn ring_coord(half: int, margin: int, far: bool) -> int {
    if far {
        half + margin
    } else {
        -(half + margin)
    }
}

/// The hostile-object position for the drawn margins and side picks in
/// pursuit mode.
pub fn object_spawn_pos(
    half_w: i64,
    half_h: i64,
    margin_x: i64,
    margin_y: i64,
    far_x: bool,
    far_y: bool,
) -> (p: Vec2)
    requires
        0 <= half_w <= WINDOW_HALF_LIMIT,
        0 <= half_h <= WINDOW_HALF_LIMIT,
        SPAWN_MARGIN_MIN <= margin_x < SPAWN_MARGIN_MAX,
        SPAWN_MARGIN_MIN <= margin_y < SPAWN_MARGIN_MAX,
    ensures
        p.x == ring_coord(half_w as int, margin_x as int, far_x),
        p.y == ring_coord(half_h as int, margin_y as int, far_y),
        p.in_arena(),
{
    let x: i64 = if far_x {
        half_w + margin_x
    } else {
        -(half_w + margin_x)
    };
    let y: i64 = if far_y {
        half_h + margin_y
    } else {
        -(half_h + margin_y)
    };
    Vec2 { x, y }
}

/// What the spawned hostile looks like in each mode, apart from its random
/// position: pursuit-mode hostiles are small, gravity-well hostiles large.
pub open spec fn object_radius(mode: Mode) -> int {
    if mode == Mode::Pursuit {
        OBJECT_RADIUS_PURSUIT as int
    } else {
        OBJECT_RADIUS_WELL as int
    }
}

/// The position a mode gives its hostiles lies in that mode's spawn region:
/// in pursuit mode, past the window half-extent by at least the minimum
/// and less than the maximum margin, on either side, per axis; in
/// gravity-well mode, within the fixed square.
pub open spec fn object_pos_in_region(mode: Mode, p: Vec2, half_w: int, half_h: int) -> bool {
    if mode == Mode::Pursuit {
        &&& (half_w + SPAWN_MARGIN_MIN <= p.x < half_w + SPAWN_MARGIN_MAX) || (-(half_w
            + SPAWN_MARGIN_MAX) < p.x <= -(half_w + SPAWN_MARGIN_MIN))
        &&& (half_h + SPAWN_MARGIN_MIN <= p.y < half_h + SPAWN_MARGIN_MAX) || (-(half_h
            + SPAWN_MARGIN_MAX) < p.y <= -(half_h + SPAWN_MARGIN_MIN))
    } else {
        -WELL_SPAWN_HALF <= p.x < WELL_SPAWN_HALF && -WELL_SPAWN_HALF <= p.y < WELL_SPAWN_HALF
    }
}

/// Tick the hostile-object timer by the frame's delta and, when it fires,
/// spawn exactly one hostile at a freshly drawn random position: at most
/// one spawn per tick however large the delta. In pursuit mode the
/// position is screen-relative; in gravity-well mode it is drawn from a
/// fixed square.
pub fn spawn_objects(world: &mut GameWorld, dt_ms: u64, half_w: i64, half_h: i64)
    requires
        old(world).wf(),
        dt_ms <= MAX_TICK_MS,
        0 <= half_w <= WINDOW_HALF_LIMIT,
        0 <= half_h <= WINDOW_HALF_LIMIT,
        old(world).next_id < u64::MAX,
    ensures
        final(world).wf(),
        final(world).player == old(world).player,
        final(world).turret == old(world).turret,
        final(world).mode == old(world).mode,
        final(world).state == old(world).state,
        final(world).pickup_timer == old(world).pickup_timer,
        final(world).object_timer.period_ms == old(world).object_timer.period_ms,
        final(world).object_timer.elapsed_ms == next_at(
            old(world).object_timer.period_ms as int,
            old(world).object_timer.elapsed_ms as int,
            dt_ms as int,
        ),
        !fires_at(
            old(world).object_timer.period_ms as int,
            old(world).object_timer.elapsed_ms as int,
            dt_ms as int,
        ) ==> final(world).entities == old(world).entities && final(world).next_id == old(world).next_id,
        fires_at(
            old(world).object_timer.period_ms as int,
            old(world).object_timer.elapsed_ms as int,
            dt_ms as int,
        ) ==> {
            &&& final(world).next_id == old(world).next_id + 1
            &&& final(world).entities@.len() == old(world).entities@.len() + 1
            &&& forall|i: int|
                0 <= i < old(world).entities@.len() ==> final(world).entities@[i] == old(world).entities@[i]
            &&& {
                let e = final(world).entities@.last();
                &&& e.id == old(world).next_id
                &&& e.kind == Kind::Object
                &&& e.rot == Rot::identity_spec()
                &&& e.radius == object_radius(old(world).mode)
                &&& object_pos_in_region(old(world).mode, e.pos, half_w as int, half_h as int)
            }
        },
{
    let fired: bool = world.object_timer.tick(dt_ms);
    if !fired {
        return ;
    }
    let pos: Vec2 = if matches!(world.mode, Mode::Pursuit) {
        let margin_x: i64 = random_in_range(SPAWN_MARGIN_MIN as u64, SPAWN_MARGIN_MAX as u64)
            as i64;
        let margin_y: i64 = random_in_range(SPAWN_MARGIN_MIN as u64, SPAWN_MARGIN_MAX as u64)
            as i64;
        let far_x: bool = random_in_range(0, 2) == 1;
        let far_y: bool = random_in_range(0, 2) == 1;
        object_spawn_pos(half_w, half_h, margin_x, margin_y, far_x, far_y)
    } else {
        let x: i64 = random_in_range(0, (2 * WELL_SPAWN_HALF) as u64) as i64 - WELL_SPAWN_HALF;
        let y: i64 = random_in_range(0, (2 * WELL_SPAWN_HALF) as u64) as i64 - WELL_SPAWN_HALF;
        Vec2 { x, y }
    };
    let radius: i64 = if matches!(world.mode, Mode::Pursuit) {
        OBJECT_RADIUS_PURSUIT
    } else {
        OBJECT_RADIUS_WELL
    };
    let e: Entity = Entity {
        id: world.next_id,
        kind: Kind::Object,
        pos,
        rot: Rot::identity(),
        radius,
    };
    world.entities.push(e);
    world.next_id = world.next_id + 1;
}

/// Tick the pickup timer by the frame's delta and, when it fires, spawn
/// exactly one pickup at a random position in the fixed pickup square: at
/// most one spawn per tick however large the delta.
pub fn spawn_pickups(world: &mut GameWorld, dt_ms: u64)
    requires
        old(world).wf(),
        dt_ms <= MAX_TICK_MS,
        old(world).next_id < u64::MAX,
    ensures
        final(world).wf(),
        final(world).player == old(world).player,
        final(world).turret == old(world).turret,
        final(world).mode == old(world).mode,
        final(world).state == old(world).state,
        final(world).object_timer == old(world).object_timer,
        final(world).pickup_timer.period_ms == old(world).pickup_timer.period_ms,
        final(world).pickup_timer.elapsed_ms == next_at(
            old(world).pickup_timer.period_ms as int,
            old(world).pickup_timer.elapsed_ms as int,
            dt_ms as int,
        ),
        !fires_at(
            old(world).pickup_timer.period_ms as int,
            old(world).pickup_timer.elapsed_ms as int,
            dt_ms as int,
        ) ==> final(world).entities == old(world).entities && final(world).next_id == old(world).next_id,
        fires_at(
            old(world).pickup_timer.period_ms as int,
            old(world).pickup_timer.elapsed_ms as int,
            dt_ms as int,
        ) ==> {
            &&& final(world).next_id == old(world).next_id + 1
            &&& final(world).entities@.len() == old(world).entities@.len() + 1
            &&& forall|i: int|
                0 <= i < old(world).entities@.len() ==> final(world).entities@[i] == old(world).entities@[i]
            &&& {
                let e = final(world).entities@.last();
                &&& e.id == old(world).next_id
                &&& e.kind == Kind::Pickup
                &&& e.rot == Rot::identity_spec()
                &&& e.radius == PICKUP_RADIUS
                &&& -PICKUP_SPAWN_HALF <= e.pos.x < PICKUP_SPAWN_HALF
                &&& -PICKUP_SPAWN_HALF <= e.pos.y < PICKUP_SPAWN_HALF
            }
        },
{
    let fired: bool = world.pickup_timer.tick(dt_ms);
    if !fired {
        return ;
    }
    let x: i64 = random_in_range(0, (2 * PICKUP_SPAWN_HALF) as u64) as i64 - PICKUP_SPAWN_HALF;
    let y: i64 = random_in_range(0, (2 * PICKUP_SPAWN_HALF) as u64) as i64 - PICKUP_SPAWN_HALF;
    let e: Entity = Entity {
        id: world.next_id,
        kind: Kind::Pickup,
        pos: Vec2 { x, y },
        rot: Rot::identity(),
        radius: PICKUP_RADIUS,
    };
    world.entities.push(e);
    world.next_id = world.next_id + 1;
}

/// On a fire intent, spawn one bullet at the player's position, its facing
/// fixed at spawn time so that its "up" axis points from the player toward
/// the cursor's world position; it keeps that facing for its lifetime. No
/// intent, or a cursor exactly on the player's center (which gives no
/// direction), spawns nothing.
pub fn fire_bullet(world: &mut GameWorld, fire: bool, cursor_world: Vec2)
    requires
        old(world).wf(),
        cursor_world.in_arena(),
        old(world).next_id < u64::MAX,
    ensures
        final(world).wf(),
        final(world).player == old(world).player,
        final(world).turret == old(world).turret,
        final(world).mode == old(world).mode,
        final(world).state == old(world).state,
        final(world).object_timer == old(world).object_timer,
        final(world).pickup_timer == old(world).pickup_timer,
        !(fire && cursor_world != old(world).player.pos) ==> final(world).entities == old(world).entities && final(world).next_id == old(world).next_id,
        fire && cursor_world != old(world).player.pos ==> {
            &&& final(world).next_id == old(world).next_id + 1
            &&& final(world).entities@.len() == old(world).entities@.len() + 1
            &&& forall|i: int|
                0 <= i < old(world).entities@.len() ==> final(world).entities@[i] == old(world).entities@[i]
            &&& {
                let e = final(world).entities@.last();
                &&& e.id == old(world).next_id
                &&& e.kind == Kind::Bullet
                &&& e.pos == old(world).player.pos
                &&& e.rot.x == cursor_world.y - old(world).player.pos.y
                &&& e.rot.y == -(cursor_world.x - old(world).player.pos.x)
                &&& e.radius == BULLET_RADIUS
            }
        },
{
    if !fire {
        return ;
    }
    let dx: i64 = cursor_world.x - world.player.pos.x;
    let dy: i64 = cursor_world.y - world.player.pos.y;
    if dx == 0 && dy == 0 {
        return ;
    }
    let e: Entity = Entity {
        id: world.next_id,
        kind: Kind::Bullet,
        pos: world.player.pos,
        rot: Rot { x: dy, y: -dx },
        radius: BULLET_RADIUS,
    };
    world.entities.push(e);
    world.next_id = world.next_id + 1;
}

} // verus!
