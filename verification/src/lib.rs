//! Gameplay rules for a small twin-stick arcade game: a player-steered
//! vehicle with an independently aimed turret, periodically spawned hostile
//! objects, projectiles, and simple collision outcomes.
//!
//! The crate holds only the per-frame rules layer. Rendering, windowing,
//! physics integration and input snapshotting are external collaborators;
//! they hand the rules plain values (key states, a cursor position already
//! converted to world space, frame delta time, the physics engine's contact
//! pairs) and receive plain values back (velocities, rotations, spawn
//! requests, forces, despawns).
//!
//! All geometry is carried in fixed-point milli-units (`geom::MILLI` steps
//! per world unit), and rotations are carried as non-zero integer direction
//! vectors, so every rule is exact integer arithmetic.

pub mod bounds;
pub mod collide;
pub mod frame;
pub mod geom;
pub mod input;
pub mod motion;
pub mod rng;
pub mod spawn;
pub mod timer;
pub mod turret;
pub mod world;
