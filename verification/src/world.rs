//! The shared world the per-frame rules operate on: the player, the turret,
//! the spawned entities, the two spawn timers, and the game state.

use crate::geom::{Rot, Vec2, COORD_LIMIT};
use crate::input::MOVE_SPEED;
use crate::timer::RepeatTimer;
use vstd::prelude::*;

verus! {

/// Which of the two rulesets is active: hostiles that pursue the player and
/// are shot down with bullets, or heavy hostiles that push the player away
/// and are consumed on near overlap.
#[derive(Clone, Copy, PartialEq, Eq, Structural, Debug)]
pub enum Mode {
    Pursuit,
    GravityWell,
}

/// Explicit game state; a hostile touching the player in pursuit mode moves
/// it to `GameOver`.
#[derive(Clone, Copy, PartialEq, Eq, Structural, Debug)]
pub enum GameState {
    Playing,
    GameOver,
}

/// What a spawned entity is; the classification is fixed at spawn time and
/// never changes for the entity's lifetime.
#[derive(Clone, Copy, PartialEq, Eq, Structural, Debug)]
pub enum Kind {
    Object,
    Pickup,
    Bullet,
}

/// The stable identifier the physics collaborator uses for the player in
/// contact pairs.
pub const PLAYER_ID: u64 = 0;

/// The stable identifier of the turret.
pub const TURRET_ID: u64 = 1;

/// Spawned entities get identifiers from here upward.
pub const FIRST_SPAWN_ID: u64 = 2;

/// Collision circle radius of the player, in milli-units.
pub const PLAYER_RADIUS: i64 = 50_000;

/// Collision circle radius of a pursuit-mode hostile, in milli-units.
pub const OBJECT_RADIUS_PURSUIT: i64 = 10_000;

/// Collision circle radius of a gravity-well hostile, in milli-units.
pub const OBJECT_RADIUS_WELL: i64 = 150_000;

/// Collision circle radius of a pickup, in milli-units.
pub const PICKUP_RADIUS: i64 = 10_000;

/// Collision circle radius of a bullet, in milli-units.
pub const BULLET_RADIUS: i64 = 10_000;

/// Rotations born from aiming at a point of the arena have components no
/// larger than one coordinate difference, twice `COORD_LIMIT`.
pub const AIM_ROT_LIMIT: i64 = 2_000_000_000;

/// A spawned entity: a hostile object, a pickup, or a bullet. The player
/// and the turret are not entities; they are held by name in `GameWorld`,
/// which makes their single-instance invariant structural.
#[derive(Clone, Copy, PartialEq, Eq, Structural, Debug)]
pub struct Entity {
    /// Identifier, unique among live entities, used by the contact pairs.
    pub id: u64,
    /// Immutable classification.
    pub kind: Kind,
    /// Position in milli-units.
    pub pos: Vec2,
    /// Facing; only bullets move along it.
    pub rot: Rot,
    /// Collision circle radius in milli-units, for the physics collaborator.
    pub radius: i64,
}

impl Entity {
    pub open spec fn wf(self) -> bool {
        &&& FIRST_SPAWN_ID <= self.id
        &&& self.pos.in_arena()
        &&& self.rot.nonzero()
        &&& self.rot.bounded(AIM_ROT_LIMIT as int)
        &&& 0 < self.radius <= COORD_LIMIT
    }
}

/// The player-controlled vehicle.
#[derive(Clone, Copy, PartialEq, Eq, Structural, Debug)]
pub struct Player {
    /// Position in milli-units.
    pub pos: Vec2,
    /// Velocity in milli-units per second, written by the input mapper and
    /// consumed by the physics integrator.
    pub vel: Vec2,
    /// Hull facing, derived from the velocity direction.
    pub rot: Rot,
    /// Outward force the gravity-well rule asks the physics integrator to
    /// apply this frame, in milli-units; recomputed every classification
    /// pass, zero when no hostile touches the player.
    pub force: Vec2,
}

impl Player {
    pub open spec fn wf(self) -> bool {
        &&& self.pos.in_arena()
        &&& self.vel.bounded(MOVE_SPEED as int)
        &&& self.rot.nonzero()
        &&& self.rot.bounded(MOVE_SPEED as int)
        &&& self.force.in_arena()
    }
}

/// The turret, a child of the player through a rotation-only pivot; its
/// rotation is expressed in the player's rotated frame.
#[derive(Clone, Copy, PartialEq, Eq, Structural, Debug)]
pub struct Turret {
    /// Rotation local to the player's frame.
    pub rot: Rot,
}

/// Turret rotations are products of an aim vector and a hull rotation, so
/// their components stay within `AIM_ROT_LIMIT` times `MOVE_SPEED` and a
/// factor of two.
pub const TURRET_ROT_LIMIT: i64 = 400_000_000_000_000;

impl Turret {
    pub open spec fn wf(self) -> bool {
        &&& self.rot.nonzero()
        &&& self.rot.bounded(TURRET_ROT_LIMIT as int)
    }
}

/// The whole world one frame of rules reads and writes.
#[derive(PartialEq, Eq, Debug)]
pub struct GameWorld {
    /// Active ruleset.
    pub mode: Mode,
    /// Explicit game state.
    pub state: GameState,
    /// The single player.
    pub player: Player,
    /// The single turret.
    pub turret: Turret,
    /// Live spawned entities, in spawn order.
    pub entities: Vec<Entity>,
    /// Periodic trigger for hostile objects.
    pub object_timer: RepeatTimer,
    /// Periodic trigger for pickups.
    pub pickup_timer: RepeatTimer,
    /// Identifier the next spawned entity will get.
    pub next_id: u64,
}

/// Period of the hostile-object spawn timer, in milliseconds.
pub const OBJECT_PERIOD_MS: u64 = 5_000;

/// Period of the pickup spawn timer, in milliseconds.
pub const PICKUP_PERIOD_MS: u64 = 8_000;

impl GameWorld {
    /// Entity identifiers are mutually distinct and below `next_id`.
    pub open spec fn ids_unique(self) -> bool {
        forall|i: int, j: int|
            0 <= i < j < self.entities@.len() ==> self.entities@[i].id != self.entities@[j].id
    }

    pub open spec fn wf(self) -> bool {
        &&& self.player.wf()
        &&& self.turret.wf()
        &&& self.object_timer.wf()
        &&& self.pickup_timer.wf()
        &&& self.object_timer.period_ms == OBJECT_PERIOD_MS
        &&& self.pickup_timer.period_ms == PICKUP_PERIOD_MS
        &&& FIRST_SPAWN_ID <= self.next_id
        &&& forall|i: int|
            0 <= i < self.entities@.len() ==> (#[trigger] self.entities@[i]).wf()
                && self.entities@[i].id < self.next_id
        &&& self.ids_unique()
    }

    /// A fresh session: player and turret at rest at the origin, no spawned
    /// entities, both spawn timers at zero, the chosen ruleset, playing.
    pub fn new(mode: Mode) -> (w: GameWorld)
        ensures
            w.wf(),
            w.mode == mode,
            w.state == GameState::Playing,
            w.player.pos == Vec2::origin_spec(),
            w.player.vel == Vec2::origin_spec(),
            w.player.rot == Rot::identity_spec(),
            w.player.force == Vec2::origin_spec(),
            w.turret.rot == Rot::identity_spec(),
            w.entities@.len() == 0,
            w.object_timer.elapsed_ms == 0,
            w.pickup_timer.elapsed_ms == 0,
            w.next_id == FIRST_SPAWN_ID,
    {
        GameWorld {
            mode,
            state: GameState::Playing,
            player: Player {
                pos: Vec2::origin(),
                vel: Vec2::origin(),
                rot: Rot::identity(),
                force: Vec2::origin(),
            },
            turret: Turret { rot: Rot::identity() },
            entities: Vec::new(),
            object_timer: RepeatTimer::new(OBJECT_PERIOD_MS),
            pickup_timer: RepeatTimer::new(PICKUP_PERIOD_MS),
            next_id: FIRST_SPAWN_ID,
        }
    }
}

} // verus!
