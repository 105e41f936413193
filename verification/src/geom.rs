//! Fixed-point planar geometry: vectors, rotations as integer direction
//! vectors, integer square root, and scaled unit steps.

use vstd::prelude::*;

verus! {

/// Number of fixed-point coordinate steps per world unit.
pub const MILLI: i64 = 1000;

/// Largest coordinate magnitude (in milli-units) the arena tracks; positions
/// are clamped here so that every difference of two coordinates fits
/// comfortably in 64 bits.
pub const COORD_LIMIT: i64 = 1_000_000_000;

/// A point or displacement in the plane, in milli-units.
#[derive(Clone, Copy, PartialEq, Eq, Structural, Debug)]
pub struct Vec2 {
    pub x: i64,
    pub y: i64,
}

impl Vec2 {
    /// The coordinates lie within the arena's tracked range.
    pub open spec fn in_arena(self) -> bool {
        -COORD_LIMIT <= self.x <= COORD_LIMIT && -COORD_LIMIT <= self.y <= COORD_LIMIT
    }

    /// Both components fit below `b` in magnitude.
    pub open spec fn bounded(self, b: int) -> bool {
        -b <= self.x <= b && -b <= self.y <= b
    }

    pub open spec fn origin_spec() -> Vec2 {
        Vec2 { x: 0, y: 0 }
    }

    pub fn new(x: i64, y: i64) -> (v: Vec2)
        ensures
            v == (Vec2 { x: x, y: y }),
    {
        Vec2 { x, y }
    }

    pub fn origin() -> (v: Vec2)
        ensures
            v == Vec2::origin_spec(),
    {
        Vec2 { x: 0, y: 0 }
    }
}

/// A planar rotation, held as a non-zero integer vector `(x, y)`: the
/// rotation it denotes is the angle from the positive x axis to that vector,
/// so any two vectors on one ray denote the same rotation. Composing two
/// rotations is complex-number multiplication of the vectors, which keeps
/// every rule exact in integers; converting to radians is display work left
/// to the engine side.
#[derive(Clone, Copy, PartialEq, Eq, Structural, Debug)]
pub struct Rot {
    pub x: i64,
    pub y: i64,
}

impl Rot {
    /// The zero vector denotes no direction and is excluded.
    pub open spec fn nonzero(self) -> bool {
        !(self.x == 0 && self.y == 0)
    }

    /// Both components fit below `b` in magnitude.
    pub open spec fn bounded(self, b: int) -> bool {
        -b <= self.x <= b && -b <= self.y <= b
    }

    /// The identity rotation (angle zero).
    pub open spec fn identity_spec() -> Rot {
        Rot { x: 1, y: 0 }
    }

    pub fn identity() -> (r: Rot)
        ensures
            r == Rot::identity_spec(),
    {
        Rot { x: 1, y: 0 }
    }
}

/// First component of the complex product `(ax + i*ay) * (bx + i*by)`:
/// composing the rotations denoted by the two vectors adds their angles.
pub open spec fn cmul_x(ax: int, ay: int, bx: int, by: int) -> int {
    ax * bx - ay * by
}

/// Second component of the complex product `(ax + i*ay) * (bx + i*by)`.
pub open spec fn cmul_y(ax: int, ay: int, bx: int, by: int) -> int {
    ax * by + ay * bx
}

/// `r` is the floor of the square root of `n`.
pub open spec fn is_sqrt(n: int, r: int) -> bool {
    0 <= r && r * r <= n && n < (r + 1) * (r + 1)
}

/// The floor of the square root of `n` (meaningful for `n >= 0`).
pub open spec fn sqrt_floor(n: int) -> int {
    choose|r: int| is_sqrt(n, r)
}

/// For every non-negative `n`, `sqrt_floor(n)` really is its floored square
/// root.
pub proof fn lemma_sqrt_exists(n: nat)
    ensures
        is_sqrt(n as int, sqrt_floor(n as int)),
    decreases n,
{
    if n == 0 {
        assert(is_sqrt(0, 0));
    } else {
        lemma_sqrt_exists((n - 1) as nat);
        let r = sqrt_floor(n - 1);
        if (r + 1) * (r + 1) == n {
            assert(is_sqrt(n as int, r + 1)) by (nonlinear_arith)
                requires
                    is_sqrt(n - 1, r),
                    (r + 1) * (r + 1) == n,
            ;
        } else {
            assert(is_sqrt(n as int, r));
        }
    }
}

/// The floored square root is unique.
pub proof fn lemma_sqrt_unique(n: int, r: int)
    requires
        is_sqrt(n, r),
    ensures
        r == sqrt_floor(n),
{
    let s = sqrt_floor(n);
    assert(is_sqrt(n, s));
    assert(r == s) by (nonlinear_arith)
        requires
            is_sqrt(n, r),
            is_sqrt(n, s),
    ;
}

/// Largest argument `isqrt` accepts; any sum of two squares of coordinates
/// within twice `COORD_LIMIT` stays below it.
pub const ISQRT_MAX: u64 = 8_000_000_000_000_000_000;

/// Floored integer square root by binary search.
pub fn isqrt(n: u64) -> (r: u64)
    requires
        n <= ISQRT_MAX,
    ensures
        is_sqrt(n as int, r as int),
        r == sqrt_floor(n as int),
{
    let mut lo: u64 = 0;
    let mut hi: u64 = 3_000_000_000;
    assert((hi + 1) * (hi + 1) > n) by (nonlinear_arith)
        requires
            n <= 8_000_000_000_000_000_000u64,
            hi == 3_000_000_000u64,
    ;
    while lo < hi
        invariant
            lo <= hi,
            hi <= 3_000_000_000,
            lo * lo <= n,
            n < (hi + 1) * (hi + 1),
        decreases hi - lo,
    {
        let mid: u64 = lo + (hi - lo + 1) / 2;
        assert(mid * mid <= 3_000_000_001u64 * 3_000_000_001u64) by (nonlinear_arith)
            requires
                mid <= 3_000_000_001u64,
        ;
        if mid * mid <= n {
            lo = mid;
        } else {
            hi = mid - 1;
            assert(n < (hi + 1) * (hi + 1));
        }
    }
    proof {
        lemma_sqrt_unique(n as int, lo as int);
    }
    lo
}

/// A coordinate clamped to the arena's tracked range.
pub open spec fn clamp_spec(x: int) -> int {
    if x > COORD_LIMIT {
        COORD_LIMIT as int
    } else if x < -COORD_LIMIT {
        -COORD_LIMIT as int
    } else {
        x
    }
}

pub fn clamp_coord(x: i64) -> (r: i64)
    ensures
        r == clamp_spec(x as int),
{
    if x > COORD_LIMIT {
        COORD_LIMIT
    } else if x < -COORD_LIMIT {
        -COORD_LIMIT
    } else {
        x
    }
}

/// Signed scaling of one component of a unit vector: `d * num / len`
/// computed on magnitudes, with the sign of `d` reapplied.
pub open spec fn scaled_div(d: int, num: int, len: int) -> int {
    if d >= 0 {
        (d * num) / len
    } else {
        -(((-d) * num) / len)
    }
}

/// The x component of the unit vector of `(dx, dy)` scaled by `scale`, in
/// the fixed-point sense: magnitudes divide through the floored length.
pub open spec fn unit_scaled_x(dx: int, dy: int, scale: int) -> int {
    scaled_div(dx, scale, sqrt_floor(dx * dx + dy * dy))
}

/// The y component of the unit vector of `(dx, dy)` scaled by `scale`.
pub open spec fn unit_scaled_y(dx: int, dy: int, scale: int) -> int {
    scaled_div(dy, scale, sqrt_floor(dx * dx + dy * dy))
}

/// Largest scale `scale_toward` accepts.
pub const SCALE_LIMIT: i64 = 100_000_000;

/// No component of a vector is longer than the whole vector: the floored
/// length of `(dx, dy)` is at least `|dx|` and `|dy|`.
proof fn lemma_component_below_length(dx: int, dy: int)
    requires
        !(dx == 0 && dy == 0),
    ensures
        is_sqrt(dx * dx + dy * dy, sqrt_floor(dx * dx + dy * dy)),
        1 <= sqrt_floor(dx * dx + dy * dy),
        dx <= sqrt_floor(dx * dx + dy * dy),
        -dx <= sqrt_floor(dx * dx + dy * dy),
        dy <= sqrt_floor(dx * dx + dy * dy),
        -dy <= sqrt_floor(dx * dx + dy * dy),
{
    let n = dx * dx + dy * dy;
    assert(n >= 1) by (nonlinear_arith)
        requires
            !(dx == 0 && dy == 0),
            n == dx * dx + dy * dy,
    ;
    lemma_sqrt_exists(n as nat);
    let r = sqrt_floor(n);
    assert(1 <= r && dx <= r && -dx <= r && dy <= r && -dy <= r) by (nonlinear_arith)
        requires
            n == dx * dx + dy * dy,
            n >= 1,
            is_sqrt(n, r),
    ;
}

/// The vector along `d` whose fixed-point length is `scale`: each component
/// is `d`'s component times `scale`, divided through the floored length of
/// `d`, rounded toward zero. Both components come out within `scale`.
pub fn scale_toward(d: Vec2, scale: i64) -> (s: Vec2)
    requires
        !(d.x == 0 && d.y == 0),
        d.bounded(2 * COORD_LIMIT),
        0 <= scale <= SCALE_LIMIT,
    ensures
        s.x == unit_scaled_x(d.x as int, d.y as int, scale as int),
        s.y == unit_scaled_y(d.x as int, d.y as int, scale as int),
        -scale <= s.x <= scale,
        -scale <= s.y <= scale,
{
    proof {
        lemma_component_below_length(d.x as int, d.y as int);
        assert(0 <= d.x * d.x <= 4_000_000_000_000_000_000 && 0 <= d.y * d.y
            <= 4_000_000_000_000_000_000) by (nonlinear_arith)
            requires
                -2_000_000_000 <= d.x <= 2_000_000_000,
                -2_000_000_000 <= d.y <= 2_000_000_000,
        ;
    }
    let d2: i64 = d.x * d.x + d.y * d.y;
    let len: u64 = isqrt(d2 as u64);
    proof {
        assert(len * len <= 8_000_000_000_000_000_000 ==> len <= 3_000_000_000) by (nonlinear_arith);
    }
    let ax: u64 = (if d.x >= 0 {
        d.x
    } else {
        -d.x
    }) as u64;
    let ay: u64 = (if d.y >= 0 {
        d.y
    } else {
        -d.y
    }) as u64;
    proof {
        assert(ax * (scale as u64) <= 2_000_000_000u64 * 100_000_000u64 && ay * (scale as u64)
            <= 2_000_000_000u64 * 100_000_000u64) by (nonlinear_arith)
            requires
                ax <= 2_000_000_000u64,
                ay <= 2_000_000_000u64,
                scale <= 100_000_000,
                0 <= scale,
        ;
        lemma_scaled_component_bound(ax as int, len as int, scale as int);
        lemma_scaled_component_bound(ay as int, len as int, scale as int);
    }
    let qx: u64 = (ax * (scale as u64)) / len;
    let qy: u64 = (ay * (scale as u64)) / len;
    let sx: i64 = if d.x >= 0 {
        qx as i64
    } else {
        -(qx as i64)
    };
    let sy: i64 = if d.y >= 0 {
        qy as i64
    } else {
        -(qy as i64)
    };
    Vec2 { x: sx, y: sy }
}

/// A scaled unit vector stays within its scale on both components.
pub proof fn lemma_unit_scaled_bound(dx: int, dy: int, scale: int)
    requires
        !(dx == 0 && dy == 0),
        0 <= scale,
    ensures
        -scale <= unit_scaled_x(dx, dy, scale) <= scale,
        -scale <= unit_scaled_y(dx, dy, scale) <= scale,
{
    lemma_component_below_length(dx, dy);
    let len = sqrt_floor(dx * dx + dy * dy);
    if dx >= 0 {
        lemma_scaled_component_bound(dx, len, scale);
    } else {
        lemma_scaled_component_bound(-dx, len, scale);
    }
    if dy >= 0 {
        lemma_scaled_component_bound(dy, len, scale);
    } else {
        lemma_scaled_component_bound(-dy, len, scale);
    }
}

/// Dividing `a * scale` by a length no smaller than `a` stays within
/// `scale`.
proof fn lemma_scaled_component_bound(a: int, len: int, scale: int)
    requires
        0 <= a <= len,
        1 <= len,
        0 <= scale,
    ensures
        0 <= (a * scale) / len <= scale,
{
    assert(a * scale <= len * scale) by (nonlinear_arith)
        requires
            0 <= a <= len,
            0 <= scale,
    ;
    assert(0 <= (a * scale) / len <= scale) by (nonlinear_arith)
        requires
            0 <= a * scale <= len * scale,
            1 <= len,
    ;
}

} // verus!
