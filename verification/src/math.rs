//! Fixed-point lengths, times and vectors.
//!
//! A length is a whole number of millionths of a world unit and a time a whole
//! number of microseconds, so that every formula of the game is exact.
use vstd::prelude::*;

verus! {

/// One world unit. One second, where the number is a time.
pub const UNIT: i64 = 1_000_000;

/// Half a world unit: from the middle of a grid cell to its edge.
pub const HALF_UNIT: i64 = 500_000;

/// The largest magnitude of a coordinate that the world stores.
pub const COORD_MAX: i64 = 1_000_000_000_000_000;

/// The longest frame, in microseconds, that the per-frame systems accept.
pub const DELTA_MAX: u64 = 1_000_000_000;

/// Whether `c` lies within the range of stored coordinates.
pub open spec fn coord_in_bounds(c: i64) -> bool {
    -COORD_MAX <= c <= COORD_MAX
}

/// `c` brought into the range of stored coordinates.
pub open spec fn clamp_coord(c: int) -> i64 {
    if c < -COORD_MAX {
        (-COORD_MAX) as i64
    } else if c > COORD_MAX {
        COORD_MAX
    } else {
        c as i64
    }
}

/// The sign of `d` as the engine's `signum` of a difference gives it: zero
/// counts as positive.
pub open spec fn sign_of(d: int) -> int {
    if d < 0 {
        -1
    } else {
        1
    }
}

/// A vector in the plane of play.
#[derive(Clone, Copy, Debug, PartialEq, Eq, Structural)]
pub struct Vec2 {
    pub x: i64,
    pub y: i64,
}

/// A vector in space.
#[derive(Clone, Copy, Debug, PartialEq, Eq, Structural)]
pub struct Vec3 {
    pub x: i64,
    pub y: i64,
    pub z: i64,
}

/// A pair of unsigned cell counts.
#[derive(Clone, Copy, Debug, PartialEq, Eq, Structural)]
pub struct UVec2 {
    pub x: u32,
    pub y: u32,
}

impl Vec2 {
    /// Whether both coordinates lie within the range of stored coordinates.
    pub open spec fn in_bounds(self) -> bool {
        coord_in_bounds(self.x) && coord_in_bounds(self.y)
    }
}

impl Vec3 {
    /// The vector of the three coordinates.
    pub open spec fn spec_new(x: i64, y: i64, z: i64) -> Vec3 {
        Vec3 { x, y, z }
    }

    /// The vector of the three coordinates.
    #[verifier::when_used_as_spec(spec_new)]
    pub fn new(x: i64, y: i64, z: i64) -> (v: Vec3)
        ensures
            v == Vec3::spec_new(x, y, z),
    {
        Vec3 { x, y, z }
    }

    /// Whether the three coordinates lie within the range of stored
    /// coordinates.
    pub open spec fn in_bounds(self) -> bool {
        coord_in_bounds(self.x) && coord_in_bounds(self.y) && coord_in_bounds(self.z)
    }

    /// Tests the range of the three coordinates.
    pub fn is_in_bounds(&self) -> (ok: bool)
        ensures
            ok == self.in_bounds(),
    {
        -COORD_MAX <= self.x && self.x <= COORD_MAX && -COORD_MAX <= self.y && self.y <= COORD_MAX
            && -COORD_MAX <= self.z && self.z <= COORD_MAX
    }

    /// The first two coordinates.
    pub open spec fn spec_truncate(self) -> Vec2 {
        Vec2 { x: self.x, y: self.y }
    }

    /// The first two coordinates.
    #[verifier::when_used_as_spec(spec_truncate)]
    pub fn truncate(self) -> (v: Vec2)
        ensures
            v == self.spec_truncate(),
    {
        Vec2 { x: self.x, y: self.y }
    }

    /// The opposite vector.
    pub open spec fn negated(self) -> Vec3 {
        Vec3 { x: (-self.x) as i64, y: (-self.y) as i64, z: (-self.z) as i64 }
    }

    /// The opposite vector.
    pub fn neg(self) -> (v: Vec3)
        requires
            self.in_bounds(),
        ensures
            v == self.negated(),
            v.in_bounds(),
    {
        Vec3 { x: -self.x, y: -self.y, z: -self.z }
    }

    /// The sum of two vectors.
    pub open spec fn plus(self, other: Vec3) -> Vec3 {
        Vec3 {
            x: (self.x + other.x) as i64,
            y: (self.y + other.y) as i64,
            z: (self.z + other.z) as i64,
        }
    }

    /// The sum of two vectors.
    pub fn add(self, other: Vec3) -> (v: Vec3)
        requires
            self.in_bounds(),
            other.in_bounds(),
        ensures
            v == self.plus(other),
            v.x == self.x + other.x,
            v.y == self.y + other.y,
            v.z == self.z + other.z,
    {
        Vec3 { x: self.x + other.x, y: self.y + other.y, z: self.z + other.z }
    }
}

impl Vec3 {
    /// The vector with each coordinate brought into the range of stored
    /// coordinates. A vector within range is left as it is.
    pub open spec fn clamped(self) -> Vec3 {
        Vec3 {
            x: clamp_coord(self.x as int),
            y: clamp_coord(self.y as int),
            z: clamp_coord(self.z as int),
        }
    }

    /// The vector with each coordinate brought into the range of stored
    /// coordinates.
    pub fn clamp(self) -> (v: Vec3)
        ensures
            v == self.clamped(),
            v.in_bounds(),
            self.in_bounds() ==> v == self,
    {
        Vec3 { x: clamp_to_bounds(self.x), y: clamp_to_bounds(self.y), z: clamp_to_bounds(self.z) }
    }
}

/// Brings a coordinate into the range of stored coordinates.
pub fn clamp_to_bounds(c: i64) -> (clamped: i64)
    ensures
        clamped == clamp_coord(c as int),
        coord_in_bounds(clamped),
{
    if c < -COORD_MAX {
        -COORD_MAX
    } else if c > COORD_MAX {
        COORD_MAX
    } else {
        c
    }
}

/// The sign of the difference `to - from`, zero counting as positive.
pub fn signum_of_difference(to: i64, from: i64) -> (s: i64)
    ensures
        s == sign_of(to - from),
{
    if to < from {
        -1
    } else {
        1
    }
}

} // verus!
