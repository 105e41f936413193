use turret_arena::bounds::check_boundaries;
use turret_arena::collide::{consume_objects, detect_collisions, Contact};
use turret_arena::frame::{step_frame, FrameInput};
use turret_arena::geom::{isqrt, scale_toward, Rot, Vec2};
use turret_arena::input::{desired_velocity, quit_requested, KeyState};
use turret_arena::motion::{integrate_player, move_bullet, move_objects, rotate_player};
use turret_arena::spawn::{fire_bullet, spawn_objects, spawn_pickups};
use turret_arena::timer::RepeatTimer;
use turret_arena::turret::rotate_turret;
use turret_arena::world::{Entity, GameState, GameWorld, Kind, Mode, Player};

fn keys_none() -> KeyState {
    KeyState { left: false, right: false, up: false, down: false, fire: false, quit: false }
}

fn sample_player() -> Player {
    Player {
        pos: Vec2 { x: 0, y: 0 },
        vel: Vec2 { x: 0, y: 0 },
        rot: Rot { x: 1, y: 0 },
        force: Vec2 { x: 0, y: 0 },
    }
}

fn object_at(id: u64, x: i64, y: i64) -> Entity {
    Entity { id, kind: Kind::Object, pos: Vec2 { x, y }, rot: Rot { x: 1, y: 0 }, radius: 10_000 }
}

fn bullet_at(id: u64, x: i64, y: i64) -> Entity {
    Entity { id, kind: Kind::Bullet, pos: Vec2 { x, y }, rot: Rot { x: 0, y: -1000 }, radius: 10_000 }
}

#[test]
fn input_mapper_axis_values() {
    // Every key combination yields axis components in {-100, 0, 100} units
    // (milli-units here), and opposite keys cancel.
    for bits in 0..16u32 {
        let keys = KeyState {
            left: bits & 1 != 0,
            right: bits & 2 != 0,
            up: bits & 4 != 0,
            down: bits & 8 != 0,
            fire: false,
            quit: false,
        };
        let v = desired_velocity(keys);
        assert!(v.x == -100_000 || v.x == 0 || v.x == 100_000);
        assert!(v.y == -100_000 || v.y == 0 || v.y == 100_000);
        if keys.left == keys.right {
            assert_eq!(v.x, 0);
        }
        if keys.up == keys.down {
            assert_eq!(v.y, 0);
        }
    }
    let mut keys = keys_none();
    keys.right = true;
    keys.up = true;
    let v = desired_velocity(keys);
    assert_eq!((v.x, v.y), (100_000, 100_000));
}

#[test]
fn facing_below_threshold_unchanged() {
    let mut p = sample_player();
    p.vel = Vec2 { x: 3, y: 4 };
    p.rot = Rot { x: 7, y: 9 };
    rotate_player(&mut p);
    assert_eq!((p.rot.x, p.rot.y), (7, 9));
}

#[test]
fn facing_follows_velocity() {
    let mut p = sample_player();
    p.vel = Vec2 { x: 100_000, y: 0 };
    rotate_player(&mut p);
    // Facing is the velocity turned a quarter turn clockwise.
    assert_eq!((p.rot.x, p.rot.y), (0, -100_000));
    p.vel = Vec2 { x: 0, y: 100_000 };
    rotate_player(&mut p);
    assert_eq!((p.rot.x, p.rot.y), (100_000, 0));
}

#[test]
fn turret_aim_and_frame_compensation() {
    let mut t = turret_arena::world::Turret { rot: Rot { x: 1, y: 0 } };
    let mut p = sample_player();
    let cursor = Vec2 { x: 1000, y: 0 };
    rotate_turret(&mut t, &p, cursor);
    let unrotated = (t.rot.x, t.rot.y);
    assert_eq!(unrotated, (0, -1000));

    // Rotate the hull a quarter turn counter-clockwise and aim at the same
    // world point: the local rotation comes out reduced by that quarter
    // turn (here: (0,-1000) composed with the inverse quarter turn).
    p.rot = Rot { x: 0, y: 1 };
    rotate_turret(&mut t, &p, cursor);
    assert_eq!((t.rot.x, t.rot.y), (-1000, 0));
}

#[test]
fn turret_aim_degenerate_cursor_is_noop() {
    let mut t = turret_arena::world::Turret { rot: Rot { x: 5, y: 6 } };
    let p = sample_player();
    rotate_turret(&mut t, &p, Vec2 { x: 0, y: 0 });
    assert_eq!((t.rot.x, t.rot.y), (5, 6));
}

#[test]
fn timer_fires_once_per_period() {
    let mut t = RepeatTimer::new(5000);
    assert!(!t.tick(4999));
    assert!(t.tick(1));
    assert_eq!(t.elapsed_ms, 0);
}

#[test]
fn timer_large_step_fires_once() {
    // However large the delta, one tick fires at most once; the remainder
    // of the accumulated time is kept.
    let mut t = RepeatTimer::new(5000);
    assert!(t.tick(12_345));
    assert_eq!(t.elapsed_ms, 2345);
}

#[test]
fn timer_accumulates_floor_rate() {
    // Ticked in period-sized-or-smaller steps, firings accumulate to
    // floor(total / period).
    let mut t = RepeatTimer::new(5000);
    let mut fired = 0;
    for _ in 0..13 {
        if t.tick(1000) {
            fired += 1;
        }
    }
    assert_eq!(fired, 2);
    assert_eq!(t.elapsed_ms, 3000);
}

#[test]
fn classifier_despawns_bullet_object_pair() {
    let mut w = GameWorld::new(Mode::Pursuit);
    w.entities.push(object_at(2, 500_000, 0));
    w.entities.push(bullet_at(3, 500_000, 0));
    w.entities.push(object_at(4, -500_000, 0));
    w.next_id = 5;
    let contacts = vec![Contact { a: 2, b: 3 }];
    detect_collisions(&mut w, &contacts);
    // Both members of the pair are gone; the uninvolved hostile stays.
    assert_eq!(w.entities.len(), 1);
    assert_eq!(w.entities[0].id, 4);
    assert!(matches!(w.state, GameState::Playing));

    // Re-running on an empty contact set is a no-op.
    let empty: Vec<Contact> = Vec::new();
    detect_collisions(&mut w, &empty);
    assert_eq!(w.entities.len(), 1);
    assert_eq!(w.entities[0].id, 4);
}

#[test]
fn classifier_object_touching_player_is_game_over() {
    let mut w = GameWorld::new(Mode::Pursuit);
    w.entities.push(object_at(2, 0, 0));
    w.next_id = 3;
    let contacts = vec![Contact { a: 0, b: 2 }];
    detect_collisions(&mut w, &contacts);
    assert!(matches!(w.state, GameState::GameOver));
    assert_eq!(w.entities.len(), 1);
}

#[test]
fn classifier_gravity_force_is_scaled_unit_direction() {
    let mut w = GameWorld::new(Mode::GravityWell);
    w.entities.push(object_at(2, 30_000, 40_000));
    w.next_id = 3;
    let contacts = vec![Contact { a: 0, b: 2 }];
    detect_collisions(&mut w, &contacts);
    // Direction (30000, 40000) has length 50000; the force is the unit
    // direction scaled to 25 units.
    assert_eq!((w.player.force.x, w.player.force.y), (15_000, 20_000));
    assert_eq!(w.entities.len(), 1);

    let empty: Vec<Contact> = Vec::new();
    detect_collisions(&mut w, &empty);
    assert_eq!((w.player.force.x, w.player.force.y), (0, 0));
}

#[test]
fn boundary_wrap_to_opposite_edge() {
    // Window of 800x600 units: half extents 400 and 300 units. A player 5
    // units past the right half-extent lands one unit inside the left edge.
    let mut p = sample_player();
    p.pos = Vec2 { x: 405_000, y: 0 };
    check_boundaries(&mut p, 400_000, 300_000);
    assert_eq!((p.pos.x, p.pos.y), (-399_000, 0));
    // Absent further motion the position is settled.
    check_boundaries(&mut p, 400_000, 300_000);
    assert_eq!((p.pos.x, p.pos.y), (-399_000, 0));
}

#[test]
fn boundary_wrap_all_edges() {
    let mut p = sample_player();
    p.pos = Vec2 { x: -400_001, y: 300_001 };
    check_boundaries(&mut p, 400_000, 300_000);
    assert_eq!((p.pos.x, p.pos.y), (399_000, -299_000));
}

#[test]
fn consumption_box_hit_and_miss() {
    let mut w = GameWorld::new(Mode::GravityWell);
    w.player.pos = Vec2 { x: 10_000, y: 10_000 };
    // Deltas (10, 5) units: inside the 25-unit box on both axes.
    w.entities.push(object_at(2, 20_000, 15_000));
    // Far away: untouched.
    w.entities.push(object_at(3, 100_000, 100_000));
    w.next_id = 4;
    consume_objects(&mut w);
    assert_eq!(w.entities.len(), 1);
    assert_eq!(w.entities[0].id, 3);
    assert_eq!((w.player.pos.x, w.player.pos.y), (0, 0));

    // Nothing close: a second pass changes nothing and keeps the position.
    w.player.pos = Vec2 { x: 1_000, y: 1_000 };
    consume_objects(&mut w);
    assert_eq!(w.entities.len(), 1);
    assert_eq!((w.player.pos.x, w.player.pos.y), (1_000, 1_000));
}

#[test]
fn isqrt_exact_values() {
    assert_eq!(isqrt(0), 0);
    assert_eq!(isqrt(1), 1);
    assert_eq!(isqrt(99), 9);
    assert_eq!(isqrt(100), 10);
    assert_eq!(isqrt(2_500_000_000), 50_000);
    assert_eq!(isqrt(1_000_000_000_000_000_000), 1_000_000_000);
}

#[test]
fn scaled_unit_step() {
    let s = scale_toward(Vec2 { x: 3, y: 4 }, 1000);
    assert_eq!((s.x, s.y), (600, 800));
    let s = scale_toward(Vec2 { x: -3, y: 4 }, 1000);
    assert_eq!((s.x, s.y), (-600, 800));
}

#[test]
fn hostile_drifts_one_unit_toward_player() {
    let mut w = GameWorld::new(Mode::Pursuit);
    w.entities.push(object_at(2, 10_000, 0));
    w.next_id = 3;
    move_objects(&mut w);
    // One world unit (1000 milli-units) straight toward the player.
    assert_eq!((w.entities[0].pos.x, w.entities[0].pos.y), (9_000, 0));
}

#[test]
fn bullet_travels_along_facing() {
    let mut w = GameWorld::new(Mode::Pursuit);
    fire_bullet(&mut w, true, Vec2 { x: 1000, y: 0 });
    assert_eq!(w.entities.len(), 1);
    let b = w.entities[0];
    assert!(matches!(b.kind, Kind::Bullet));
    // Aim (1000, 0) gives the facing (0, -1000): "up" points along +x.
    assert_eq!((b.rot.x, b.rot.y), (0, -1000));
    // One second at 1000 units per second.
    move_bullet(&mut w, 1000);
    assert_eq!((w.entities[0].pos.x, w.entities[0].pos.y), (1_000_000, 0));
}

#[test]
fn fire_without_intent_or_direction_spawns_nothing() {
    let mut w = GameWorld::new(Mode::Pursuit);
    fire_bullet(&mut w, false, Vec2 { x: 1000, y: 0 });
    assert_eq!(w.entities.len(), 0);
    fire_bullet(&mut w, true, Vec2 { x: 0, y: 0 });
    assert_eq!(w.entities.len(), 0);
}

#[test]
fn object_spawns_in_screen_relative_ring() {
    let mut w = GameWorld::new(Mode::Pursuit);
    spawn_objects(&mut w, 5000, 500_000, 400_000);
    assert_eq!(w.entities.len(), 1);
    let e = w.entities[0];
    assert!(matches!(e.kind, Kind::Object));
    assert_eq!(e.radius, 10_000);
    let ax = e.pos.x.abs();
    let ay = e.pos.y.abs();
    assert!((510_000..750_000).contains(&ax));
    assert!((410_000..650_000).contains(&ay));
}

#[test]
fn object_spawn_respects_timer() {
    let mut w = GameWorld::new(Mode::Pursuit);
    spawn_objects(&mut w, 4999, 500_000, 400_000);
    assert_eq!(w.entities.len(), 0);
    spawn_objects(&mut w, 1, 500_000, 400_000);
    assert_eq!(w.entities.len(), 1);
    // A huge delta still spawns exactly one hostile.
    spawn_objects(&mut w, 3_600_000, 500_000, 400_000);
    assert_eq!(w.entities.len(), 2);
}

#[test]
fn well_object_spawns_in_fixed_square() {
    let mut w = GameWorld::new(Mode::GravityWell);
    spawn_objects(&mut w, 5000, 500_000, 400_000);
    assert_eq!(w.entities.len(), 1);
    let e = w.entities[0];
    assert!(matches!(e.kind, Kind::Object));
    assert_eq!(e.radius, 150_000);
    assert!((-600_000..600_000).contains(&e.pos.x));
    assert!((-600_000..600_000).contains(&e.pos.y));
}

#[test]
fn pickup_spawns_in_fixed_square() {
    let mut w = GameWorld::new(Mode::Pursuit);
    spawn_pickups(&mut w, 8000);
    assert_eq!(w.entities.len(), 1);
    let e = w.entities[0];
    assert!(matches!(e.kind, Kind::Pickup));
    assert!((-500_000..500_000).contains(&e.pos.x));
    assert!((-500_000..500_000).contains(&e.pos.y));
    // The pickup timer is independent of the object timer.
    spawn_pickups(&mut w, 7999);
    assert_eq!(w.entities.len(), 1);
}

#[test]
fn kinematic_update_advances_by_velocity() {
    let mut p = sample_player();
    p.vel = Vec2 { x: 100_000, y: -100_000 };
    integrate_player(&mut p, 500);
    assert_eq!((p.pos.x, p.pos.y), (50_000, -50_000));
}

#[test]
fn quit_rule_follows_exit_key() {
    let mut keys = keys_none();
    assert!(!quit_requested(keys));
    keys.quit = true;
    assert!(quit_requested(keys));
}

#[test]
fn full_frame_moves_and_faces_player() {
    let mut w = GameWorld::new(Mode::Pursuit);
    let mut keys = keys_none();
    keys.right = true;
    let input = FrameInput { keys, cursor_world: Some(Vec2 { x: 200_000, y: 0 }), dt_ms: 1000 };
    let contacts: Vec<Contact> = Vec::new();
    let quit = step_frame(&mut w, input, &contacts, 500_000, 400_000);
    assert!(!quit);
    assert_eq!((w.player.vel.x, w.player.vel.y), (100_000, 0));
    assert_eq!((w.player.rot.x, w.player.rot.y), (0, -100_000));
    // 100 units per second for one second.
    assert_eq!((w.player.pos.x, w.player.pos.y), (100_000, 0));
}

#[test]
fn full_frame_quit_and_wrap() {
    let mut w = GameWorld::new(Mode::Pursuit);
    w.player.pos = Vec2 { x: 499_500, y: 0 };
    let mut keys = keys_none();
    keys.right = true;
    keys.quit = true;
    let input = FrameInput { keys, cursor_world: None, dt_ms: 100 };
    let contacts: Vec<Contact> = Vec::new();
    let quit = step_frame(&mut w, input, &contacts, 500_000, 400_000);
    assert!(quit);
    // Moved 10 units past the edge, wrapped to one unit inside the left one.
    assert_eq!(w.player.pos.x, -499_000);
}

#[test]
fn full_frame_fire_without_cursor_spawns_nothing() {
    // A fire intent with no cursor position this frame is a silent skip:
    // no bullet is added and the frame otherwise proceeds.
    let mut w = GameWorld::new(Mode::Pursuit);
    let mut keys = keys_none();
    keys.fire = true;
    let input = FrameInput { keys, cursor_world: None, dt_ms: 16 };
    let contacts: Vec<Contact> = Vec::new();
    step_frame(&mut w, input, &contacts, 500_000, 400_000);
    assert_eq!(w.entities.len(), 0);
    assert_eq!(w.next_id, 2);
}

#[test]
fn new_world_is_fresh() {
    let w = GameWorld::new(Mode::Pursuit);
    assert!(matches!(w.state, GameState::Playing));
    assert_eq!(w.entities.len(), 0);
    assert_eq!((w.player.pos.x, w.player.pos.y), (0, 0));
    assert_eq!(w.object_timer.period_ms, 5000);
    assert_eq!(w.pickup_timer.period_ms, 8000);
    assert_eq!(w.next_id, 2);
}
