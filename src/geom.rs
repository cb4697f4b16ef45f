//! Fixed-point world geometry: lengths are counted in thousandths of a world unit.
use vstd::prelude::*;

verus! {

/// One world unit, in thousandths.
pub const UNIT: i64 = 1000;

/// Magnitude that every coordinate, length and velocity handed to the library stays
/// within, so that a few ticks of arithmetic on it cannot leave `i64`.
pub const COORD_LIMIT: i64 = 1_000_000_000_000_000;

/// A point or a velocity in the plane, in thousandths of a unit.
#[derive(Clone, Copy, Debug, PartialEq, Eq, Structural)]
pub struct Vec2i {
    pub x: i64,
    pub y: i64,
}

pub open spec fn in_limit(v: int) -> bool {
    -COORD_LIMIT <= v <= COORD_LIMIT
}

impl Vec2i {
    pub open spec fn bounded(self) -> bool {
        in_limit(self.x as int) && in_limit(self.y as int)
    }

    pub fn new(x: i64, y: i64) -> (r: Vec2i)
        ensures
            r.x == x,
            r.y == y,
    {
        Vec2i { x, y }
    }
}

/// A rotation given by its cosine and sine, each in thousandths.
#[derive(Clone, Copy, Debug, PartialEq, Eq, Structural)]
pub struct Rot {
    pub cos: i64,
    pub sin: i64,
}

impl Rot {
    /// The rotation by no angle.
    pub fn identity() -> (r: Rot)
        ensures
            r.cos == UNIT,
            r.sin == 0,
    {
        Rot { cos: UNIT, sin: 0 }
    }

    pub open spec fn bounded(self) -> bool {
        -UNIT <= self.cos <= UNIT && -UNIT <= self.sin <= UNIT
    }
}

/// Rounds `a / b` toward negative infinity.
pub fn div_floor(a: i64, b: i64) -> (r: i64)
    requires
        b > 0,
    ensures
        r as int == a as int / b as int,
{
    if a >= 0 {
        a / b
    } else {
        let n: i64 = -(a + 1);
        let q: i64 = n / b;
        proof {
            lemma_floor_negative(a as int, b as int, q as int);
        }
        -q - 1
    }
}

proof fn lemma_floor_negative(a: int, b: int, q: int)
    requires
        b > 0,
        a < 0,
        q == (-(a + 1)) / b,
    ensures
        -q - 1 == a / b,
{
    let n = -(a + 1);
    let r = n % b;
    vstd::arithmetic::div_mod::lemma_fundamental_div_mod(n, b);
    assert(n == b * q + r);
    assert(0 <= r < b);
    assert(a == b * (-q - 1) + (b - 1 - r)) by (nonlinear_arith)
        requires
            n == b * q + r,
            n == -(a + 1),
    ;
    vstd::arithmetic::div_mod::lemma_fundamental_div_mod_converse(a, b, -q - 1, b - 1 - r);
}

} // verus!
