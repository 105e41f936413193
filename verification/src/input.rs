//! Input mapper: raw key state to the player's desired velocity and the
//! frame's intents.

use vstd::prelude::*;

verus! {

/// Speed contributed by one held movement key, in milli-units per second
/// (100 world units per second).
pub const MOVE_SPEED: i64 = 100_000;

/// Snapshot of the controls the rules read for one frame, taken by the
/// engine side before the frame runs.
#[derive(Clone, Copy, PartialEq, Eq, Structural, Debug)]
pub struct KeyState {
    /// Move-left key held.
    pub left: bool,
    /// Move-right key held.
    pub right: bool,
    /// Move-up key held.
    pub up: bool,
    /// Move-down key held.
    pub down: bool,
    /// Fire key or button edge (newly pressed this frame).
    pub fire: bool,
    /// Exit key edge (newly pressed this frame).
    pub quit: bool,
}

/// Velocity one axis gets from its two keys: each held key contributes
/// `MOVE_SPEED` with its sign, so opposite keys cancel and no key gives zero.
pub open spec fn axis_value(neg: bool, pos: bool) -> int {
    (if pos {
        MOVE_SPEED as int
    } else {
        0
    }) - (if neg {
        MOVE_SPEED as int
    } else {
        0
    })
}

/// Axis-aligned velocity the held movement keys ask for. There is no
/// diagonal normalization: holding two axes yields the full speed on each,
/// so diagonal movement is faster than axis-aligned movement.
pub fn desired_velocity(keys: KeyState) -> (v: crate::geom::Vec2)
    ensures
        v.x == axis_value(keys.left, keys.right),
        v.y == axis_value(keys.down, keys.up),
{
    let mut x: i64 = 0;
    let mut y: i64 = 0;
    if keys.left {
        x = x - MOVE_SPEED;
    }
    if keys.right {
        x = x + MOVE_SPEED;
    }
    if keys.up {
        y = y + MOVE_SPEED;
    }
    if keys.down {
        y = y - MOVE_SPEED;
    }
    crate::geom::Vec2 { x, y }
}

/// Each axis of the mapped velocity is one of `-MOVE_SPEED`, `0`,
/// `MOVE_SPEED`, and opposite keys cancel to zero on their axis.
pub proof fn lemma_axis_range(neg: bool, pos: bool)
    ensures
        axis_value(neg, pos) == -MOVE_SPEED || axis_value(neg, pos) == 0 || axis_value(
            neg,
            pos,
        ) == MOVE_SPEED,
        neg == pos ==> axis_value(neg, pos) == 0,
        pos && !neg ==> axis_value(neg, pos) == MOVE_SPEED,
        neg && !pos ==> axis_value(neg, pos) == -MOVE_SPEED,
{
}

/// Lifecycle rule: the application should terminate exactly when the exit
/// key was newly pressed this frame.
pub fn quit_requested(keys: KeyState) -> (quit: bool)
    ensures
        quit == keys.quit,
{
    keys.quit
}

} // verus!
