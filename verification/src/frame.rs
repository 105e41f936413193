//! One frame of the game: the rules applied to the shared world in their
//! declared order, with a contract that fixes the frame's composed effect.

use crate::bounds::{check_boundaries, wrap_spec};
use crate::collide::{
    any_consumed, any_player_object_contact, attraction_x, attraction_y, consume_objects,
    detect_collisions, survivors, unconsumed, Contact, MAX_CONTACTS,
};
use crate::geom::{clamp_spec, scaled_div, Rot, Vec2, MILLI};
use crate::input::{axis_value, desired_velocity, quit_requested, KeyState};
use crate::motion::{
    bullet_target, drift_target, integrate_player, move_bullet, move_objects, rotate_player,
    FACING_EPSILON_SQ, MAX_FRAME_MS,
};
use crate::spawn::{
    fire_bullet, object_pos_in_region, object_radius, spawn_objects, WINDOW_HALF_LIMIT,
};
use crate::timer::{fires_at, next_at};
use crate::turret::{rotate_turret, turret_local_x, turret_local_y};
use crate::world::{
    Entity, GameState, GameWorld, Kind, Mode, BULLET_RADIUS, OBJECT_PERIOD_MS,
};
use vstd::prelude::*;

verus! {

/// Everything the engine side snapshots for the rules before one frame
/// runs.
#[derive(Clone, Copy, PartialEq, Eq, Structural, Debug)]
pub struct FrameInput {
    /// Key and button state.
    pub keys: KeyState,
    /// The cursor position already converted to world space by the camera,
    /// or nothing when the cursor is outside the window.
    pub cursor_world: Option<Vec2>,
    /// Real elapsed time since the previous frame, in milliseconds.
    pub dt_ms: u64,
}

impl FrameInput {
    pub open spec fn wf(self) -> bool {
        &&& self.dt_ms <= MAX_FRAME_MS
        &&& match self.cursor_world {
            Some(c) => c.in_arena(),
            None => true,
        }
    }
}

/// The hostile the spawn director adds when its timer fires, at the drawn
/// position `opos`.
pub open spec fn spawned_object(w: GameWorld, opos: Vec2) -> Entity {
    Entity {
        id: w.next_id,
        kind: Kind::Object,
        pos: opos,
        rot: Rot::identity_spec(),
        radius: object_radius(w.mode) as i64,
    }
}

/// The bullet the fire rule adds for a fire intent at the cursor world
/// position `cursor`, under identifier `id`.
pub open spec fn fired_bullet(w: GameWorld, id: int, cursor: Vec2) -> Entity {
    Entity {
        id: id as u64,
        kind: Kind::Bullet,
        pos: w.player.pos,
        rot: Rot {
            x: (cursor.y - w.player.pos.y) as i64,
            y: (w.player.pos.x - cursor.x) as i64,
        },
        radius: BULLET_RADIUS,
    }
}

/// The velocity the input mapper writes, per axis.
pub open spec fn frame_vx(input: FrameInput) -> int {
    axis_value(input.keys.left, input.keys.right)
}

/// See `frame_vx`.
pub open spec fn frame_vy(input: FrameInput) -> int {
    axis_value(input.keys.down, input.keys.up)
}

/// Whether the frame's velocity clears the facing rule's jitter threshold.
pub open spec fn frame_over(input: FrameInput) -> bool {
    frame_vx(input) * frame_vx(input) + frame_vy(input) * frame_vy(input) > FACING_EPSILON_SQ
}

/// The hull rotation after the facing rule, first component.
pub open spec fn frame_prx(w0: GameWorld, input: FrameInput) -> int {
    if frame_over(input) {
        frame_vy(input)
    } else {
        w0.player.rot.x as int
    }
}

/// The hull rotation after the facing rule, second component.
pub open spec fn frame_pry(w0: GameWorld, input: FrameInput) -> int {
    if frame_over(input) {
        -frame_vx(input)
    } else {
        w0.player.rot.y as int
    }
}

/// Whether the object timer fires this frame.
pub open spec fn frame_fired(w0: GameWorld, input: FrameInput) -> bool {
    fires_at(OBJECT_PERIOD_MS as int, w0.object_timer.elapsed_ms as int, input.dt_ms as int)
}

/// Whether the fire rule adds a bullet this frame: only in pursuit mode, on
/// a fire intent, with a cursor this frame that is not exactly on the
/// player's center.
pub open spec fn frame_fire_ok(w0: GameWorld, input: FrameInput) -> bool {
    w0.mode == Mode::Pursuit && input.keys.fire && input.cursor_world is Some
        && input.cursor_world->Some_0 != w0.player.pos
}

/// The player's position after the kinematic update, per axis.
pub open spec fn frame_px1(w0: GameWorld, input: FrameInput) -> int {
    clamp_spec(w0.player.pos.x + scaled_div(frame_vx(input), input.dt_ms as int, MILLI as int))
}

/// See `frame_px1`.
pub open spec fn frame_py1(w0: GameWorld, input: FrameInput) -> int {
    clamp_spec(w0.player.pos.y + scaled_div(frame_vy(input), input.dt_ms as int, MILLI as int))
}

/// The entity sequence after the spawn director and the fire rule, for the
/// drawn hostile position `opos`.
pub open spec fn frame_entities_mid(w0: GameWorld, input: FrameInput, opos: Vec2) -> Seq<Entity> {
    let es1 = if frame_fired(w0, input) {
        w0.entities@.push(spawned_object(w0, opos))
    } else {
        w0.entities@
    };
    if frame_fire_ok(w0, input) {
        es1.push(
            fired_bullet(
                w0,
                w0.next_id + if frame_fired(w0, input) {
                    1int
                } else {
                    0int
                },
                input.cursor_world->Some_0,
            ),
        )
    } else {
        es1
    }
}

/// Input mapping and hull facing: velocity written from the keys, rotation
/// derived from it.
pub open spec fn frame_player_rel(w0: GameWorld, w1: GameWorld, input: FrameInput) -> bool {
    &&& w1.player.vel.x == frame_vx(input)
    &&& w1.player.vel.y == frame_vy(input)
    &&& w1.player.rot.x == frame_prx(w0, input)
    &&& w1.player.rot.y == frame_pry(w0, input)
}

/// Turret aim: with a cursor this frame, the local rotation follows the aim
/// rule under the post-facing hull rotation; a missing cursor, or one
/// exactly on the player's center, leaves the turret untouched.
pub open spec fn frame_turret_rel(w0: GameWorld, w1: GameWorld, input: FrameInput) -> bool {
    match input.cursor_world {
        Some(c) => if c == w0.player.pos {
            w1.turret == w0.turret
        } else {
            let dx = c.x - w0.player.pos.x;
            let dy = c.y - w0.player.pos.y;
            w1.turret.rot.x == turret_local_x(dx, dy, frame_prx(w0, input), frame_pry(w0, input))
                && w1.turret.rot.y == turret_local_y(
                dx,
                dy,
                frame_prx(w0, input),
                frame_pry(w0, input),
            )
        },
        None => w1.turret == w0.turret,
    }
}

/// Spawn director bookkeeping: the object timer advances by the tick rule,
/// the pickup timer is untouched, identifiers advance by exactly what was
/// spawned, and a spawned hostile lies in its mode's region.
pub open spec fn frame_spawn_rel(
    w0: GameWorld,
    w1: GameWorld,
    input: FrameInput,
    half_w: int,
    half_h: int,
    opos: Vec2,
) -> bool {
    &&& w1.object_timer.period_ms == w0.object_timer.period_ms
    &&& w1.object_timer.elapsed_ms == next_at(
        OBJECT_PERIOD_MS as int,
        w0.object_timer.elapsed_ms as int,
        input.dt_ms as int,
    )
    &&& w1.pickup_timer == w0.pickup_timer
    &&& w1.next_id == w0.next_id + (if frame_fired(w0, input) {
        1int
    } else {
        0int
    }) + (if frame_fire_ok(w0, input) {
        1int
    } else {
        0int
    })
    &&& (frame_fired(w0, input) ==> object_pos_in_region(w0.mode, opos, half_w, half_h))
}

/// The frame's effect on the entity set, the game state, and the player's
/// position and force accumulator, by mode.
pub open spec fn frame_outcome_rel(
    w0: GameWorld,
    w1: GameWorld,
    input: FrameInput,
    contacts: Seq<Contact>,
    half_w: int,
    half_h: int,
    opos: Vec2,
) -> bool {
    let es2 = frame_entities_mid(w0, input, opos);
    let px1 = frame_px1(w0, input);
    let py1 = frame_py1(w0, input);
    let pos1 = Vec2 { x: px1 as i64, y: py1 as i64 };
    if w0.mode == Mode::Pursuit {
        let es3 = es2.map_values(
            |e: Entity| bullet_target(drift_target(e, pos1), input.dt_ms as int),
        );
        &&& w1.entities@ == survivors(es3, contacts)
        &&& (w1.state == GameState::GameOver <==> (w0.state == GameState::GameOver
            || any_player_object_contact(es3, contacts)))
        &&& w1.player.pos.x == wrap_spec(px1, half_w)
        &&& w1.player.pos.y == wrap_spec(py1, half_h)
        &&& w1.player.force == w0.player.force
    } else {
        let reset = any_consumed(pos1, es2);
        &&& w1.entities@ == unconsumed(pos1, es2)
        &&& w1.state == w0.state
        &&& w1.player.force.x == attraction_x(pos1, es2, contacts)
        &&& w1.player.force.y == attraction_y(pos1, es2, contacts)
        &&& w1.player.pos.x == wrap_spec(
            if reset {
                0int
            } else {
                px1
            },
            half_w,
        )
        &&& w1.player.pos.y == wrap_spec(
            if reset {
                0int
            } else {
                py1
            },
            half_h,
        )
    }
}

/// How one frame takes the world `w0` to the world `w1`, composed from the
/// per-rule spec functions in the declared order: input mapping, hull
/// facing, turret aim, the object spawn director, the fire rule, the
/// kinematic player update, pursuit drift and bullet travel, the collision
/// classifier, the consumption rule, and last the boundary wrap. The one
/// datum the rules draw at random, the spawned hostile's position, is the
/// parameter `opos`, confined to its mode's spawn region.
pub open spec fn frame_rel(
    w0: GameWorld,
    w1: GameWorld,
    input: FrameInput,
    contacts: Seq<Contact>,
    half_w: int,
    half_h: int,
    opos: Vec2,
) -> bool {
    &&& w1.mode == w0.mode
    &&& frame_player_rel(w0, w1, input)
    &&& frame_turret_rel(w0, w1, input)
    &&& frame_spawn_rel(w0, w1, input, half_w, half_h, opos)
    &&& frame_outcome_rel(w0, w1, input, contacts, half_w, half_h, opos)
}


/// The effect of the movement, collision, consumption and wrap phase, taken
/// from the world as it stands when that phase begins.
pub open spec fn outcome_from(
    wm: GameWorld,
    w1: GameWorld,
    input: FrameInput,
    contacts: Seq<Contact>,
    half_w: int,
    half_h: int,
) -> bool {
    let dt = input.dt_ms as int;
    let px1 = clamp_spec(wm.player.pos.x + scaled_div(wm.player.vel.x as int, dt, MILLI as int));
    let py1 = clamp_spec(wm.player.pos.y + scaled_div(wm.player.vel.y as int, dt, MILLI as int));
    let pos1 = Vec2 { x: px1 as i64, y: py1 as i64 };
    let es2 = wm.entities@;
    if wm.mode == Mode::Pursuit {
        let es3 = es2.map_values(|e: Entity| bullet_target(drift_target(e, pos1), dt));
        &&& w1.entities@ == survivors(es3, contacts)
        &&& (w1.state == GameState::GameOver <==> (wm.state == GameState::GameOver
            || any_player_object_contact(es3, contacts)))
        &&& w1.player.pos.x == wrap_spec(px1, half_w)
        &&& w1.player.pos.y == wrap_spec(py1, half_h)
        &&& w1.player.force == wm.player.force
    } else {
        let reset = any_consumed(pos1, es2);
        &&& w1.entities@ == unconsumed(pos1, es2)
        &&& w1.state == wm.state
        &&& w1.player.force.x == attraction_x(pos1, es2, contacts)
        &&& w1.player.force.y == attraction_y(pos1, es2, contacts)
        &&& w1.player.pos.x == wrap_spec(
            if reset {
                0int
            } else {
                px1
            },
            half_w,
        )
        &&& w1.player.pos.y == wrap_spec(
            if reset {
                0int
            } else {
                py1
            },
            half_h,
        )
    }
}

/// Input mapping, hull facing, turret aim, the spawn director and the fire
/// rule; returns the drawn hostile position (meaningful when the spawn
/// timer fired).
fn frame_phase_a(world: &mut GameWorld, input: FrameInput, half_w: i64, half_h: i64) -> (opos:
    Ghost<Vec2>)
    requires
        old(world).wf(),
        input.wf(),
        0 <= half_w <= WINDOW_HALF_LIMIT,
        0 <= half_h <= WINDOW_HALF_LIMIT,
        old(world).next_id < u64::MAX - 2,
    ensures
        final(world).wf(),
        final(world).mode == old(world).mode,
        final(world).state == old(world).state,
        final(world).player.pos == old(world).player.pos,
        final(world).player.force == old(world).player.force,
        frame_player_rel(*old(world), *final(world), input),
        frame_turret_rel(*old(world), *final(world), input),
        frame_spawn_rel(*old(world), *final(world), input, half_w as int, half_h as int, opos@),
        final(world).entities@ == frame_entities_mid(*old(world), input, opos@),
{
    // Input mapper: write the player's velocity from the held keys.
    let v: Vec2 = desired_velocity(input.keys);
    world.player.vel = v;

    // Motion and orientation: face the hull along the velocity.
    rotate_player(&mut world.player);

    // Turret aim, skipped when there is no cursor this frame.
    if let Some(cursor) = input.cursor_world {
        let player = world.player;
        rotate_turret(&mut world.turret, &player, cursor);
    }

    // Spawn director: the hostile-object timer.
    spawn_objects(world, input.dt_ms, half_w, half_h);
    let ghost fired = frame_fired(*old(world), input);
    let ghost opos = if fired {
        world.entities@.last().pos
    } else {
        Vec2 { x: 0, y: 0 }
    };
    let ghost es1 = if fired {
        old(world).entities@.push(spawned_object(*old(world), opos))
    } else {
        old(world).entities@
    };
    proof {
        if fired {
            assert(world.entities@.last() == spawned_object(*old(world), opos));
        }
        assert(world.entities@ =~= es1);
    }

    // Fire intent: bullets exist only in pursuit mode.
    if matches!(world.mode, Mode::Pursuit) {
        if let Some(cursor) = input.cursor_world {
            fire_bullet(world, input.keys.fire, cursor);
        }
    }
    proof {
        let fire_ok = frame_fire_ok(*old(world), input);
        let nid1: int = old(world).next_id + if fired {
            1int
        } else {
            0int
        };
        let es2 = if fire_ok {
            es1.push(fired_bullet(*old(world), nid1, input.cursor_world->Some_0))
        } else {
            es1
        };
        if fire_ok {
            let b = fired_bullet(*old(world), nid1, input.cursor_world->Some_0);
            let e = world.entities@.last();
            assert(e.id == b.id && e.kind == b.kind && e.pos == b.pos && e.radius == b.radius);
            assert(e.rot.x == b.rot.x && e.rot.y == b.rot.y);
            assert(e == b);
        }
        assert(world.entities@ =~= es2);
        assert(es2 == frame_entities_mid(*old(world), input, opos));
    }
    Ghost(opos)
}

/// The kinematic player update, pursuit drift and bullet travel, the
/// collision classifier, the consumption rule, and the boundary wrap.
fn frame_phase_b(world: &mut GameWorld, input: FrameInput, contacts: &Vec<Contact>, half_w: i64, half_h: i64)
    requires
        old(world).wf(),
        input.wf(),
        contacts@.len() <= MAX_CONTACTS,
        0 <= half_w <= WINDOW_HALF_LIMIT,
        0 <= half_h <= WINDOW_HALF_LIMIT,
    ensures
        final(world).wf(),
        final(world).mode == old(world).mode,
        final(world).player.vel == old(world).player.vel,
        final(world).player.rot == old(world).player.rot,
        final(world).turret == old(world).turret,
        final(world).object_timer == old(world).object_timer,
        final(world).pickup_timer == old(world).pickup_timer,
        final(world).next_id == old(world).next_id,
        outcome_from(*old(world), *final(world), input, contacts@, half_w as int, half_h as int),
{
    let ghost es2 = old(world).entities@;

    // The kinematic player update, standing in for the physics integrator.
    integrate_player(&mut world.player, input.dt_ms);
    let ghost pos1 = world.player.pos;

    // Pursuit drift and bullet travel.
    let ghost mut es_drifted = es2;
    if matches!(world.mode, Mode::Pursuit) {
        move_objects(world);
        proof {
            es_drifted = world.entities@;
        }
        move_bullet(world, input.dt_ms);
    }
    let ghost es3 = es2.map_values(
        |e: Entity| bullet_target(drift_target(e, pos1), input.dt_ms as int),
    );
    proof {
        if old(world).mode == Mode::Pursuit {
            assert forall|i: int| 0 <= i < es2.len() implies world.entities@[i] == bullet_target(
                drift_target(es2[i], pos1),
                input.dt_ms as int,
            ) by {
                assert(es_drifted[i] == drift_target(es2[i], pos1));
                assert(world.entities@[i] == bullet_target(es_drifted[i], input.dt_ms as int));
            }
            assert(world.entities@ =~= es3);
        }
    }

    // Collision classifier over this frame's contact pairs, then the
    // gravity-well consumption rule.
    detect_collisions(world, contacts);
    if matches!(world.mode, Mode::GravityWell) {
        consume_objects(world);
    }

    // Boundary wrap: the final authority on the player's position.
    check_boundaries(&mut world.player, half_w, half_h);

    proof {
        let wm = *old(world);
        let px1 = clamp_spec(
            wm.player.pos.x + scaled_div(wm.player.vel.x as int, input.dt_ms as int, MILLI as int),
        );
        let py1 = clamp_spec(
            wm.player.pos.y + scaled_div(wm.player.vel.y as int, input.dt_ms as int, MILLI as int),
        );
        assert(pos1.x == px1 && pos1.y == py1);
        assert(pos1 == (Vec2 { x: px1 as i64, y: py1 as i64 }));
        assert(outcome_from(wm, *world, input, contacts@, half_w as int, half_h as int));
    }
}

/// Run one frame of rules over the world, in the declared order. The
/// contract fixes the frame's whole effect through `frame_rel`, up to the
/// one random draw (the spawned hostile's position, confined there to its
/// spawn region). Pickup spawning has no consumer rule wired into this
/// loop, as a deliberate omission; callers that want pickups call the
/// pickup spawn rule themselves.
///
/// Returns whether the lifecycle rule requests orderly termination.
pub fn step_frame(
    world: &mut GameWorld,
    input: FrameInput,
    contacts: &Vec<Contact>,
    half_w: i64,
    half_h: i64,
) -> (quit: bool)
    requires
        old(world).wf(),
        input.wf(),
        contacts@.len() <= MAX_CONTACTS,
        0 <= half_w <= WINDOW_HALF_LIMIT,
        0 <= half_h <= WINDOW_HALF_LIMIT,
        old(world).next_id < u64::MAX - 2,
    ensures
        final(world).wf(),
        quit == input.keys.quit,
        exists|opos: Vec2|
            frame_rel(
                *old(world),
                *final(world),
                input,
                contacts@,
                half_w as int,
                half_h as int,
                opos,
            ),
{
    let opos: Ghost<Vec2> = frame_phase_a(world, input, half_w, half_h);
    let ghost wm = *world;
    frame_phase_b(world, input, contacts, half_w, half_h);
    proof {
        let w0 = *old(world);
        assert(frame_player_rel(w0, *world, input));
        assert(frame_turret_rel(w0, *world, input));
        assert(frame_spawn_rel(w0, *world, input, half_w as int, half_h as int, opos@));
        let dt = input.dt_ms as int;
        let es2 = frame_entities_mid(w0, input, opos@);
        assert(wm.entities@ == es2);
        assert(wm.player.pos == w0.player.pos);
        assert(wm.player.vel.x == frame_vx(input) && wm.player.vel.y == frame_vy(input));
        let px1 = frame_px1(w0, input);
        let py1 = frame_py1(w0, input);
        assert(px1 == clamp_spec(wm.player.pos.x + scaled_div(wm.player.vel.x as int, dt, MILLI as int)));
        assert(py1 == clamp_spec(wm.player.pos.y + scaled_div(wm.player.vel.y as int, dt, MILLI as int)));
        assert(frame_outcome_rel(w0, *world, input, contacts@, half_w as int, half_h as int, opos@));
        assert(frame_rel(w0, *world, input, contacts@, half_w as int, half_h as int, opos@));
    }
    quit_requested(input.keys)
}

} // verus!
