//! Fixed-point 3D vectors. Coordinates are `i64` multiples of
//! `1/fixed::SCALE`; the world is bounded by `COORD_MAX` so that dot products
//! and squared norms stay well inside `i128`.

use vstd::prelude::*;

verus! {

/// Largest coordinate magnitude the geometric predicates accept (2^30).
pub const COORD_MAX: i64 = 0x4000_0000;

/// A point or direction in world space, in fixed-point coordinates. `y` is the
/// world's up axis.
#[derive(Clone, Copy, PartialEq, Eq, Structural, Debug)]
pub struct Vec3 {
    pub x: i64,
    pub y: i64,
    pub z: i64,
}

/// Mathematical dot product of two vectors.
pub open spec fn dot(a: Vec3, b: Vec3) -> int {
    a.x * b.x + a.y * b.y + a.z * b.z
}

/// Mathematical squared Euclidean norm.
pub open spec fn norm_sq(a: Vec3) -> int {
    dot(a, a)
}

/// All three coordinates lie within `[-COORD_MAX, COORD_MAX]`.
pub open spec fn in_coord_range(a: Vec3) -> bool {
    &&& -COORD_MAX <= a.x <= COORD_MAX
    &&& -COORD_MAX <= a.y <= COORD_MAX
    &&& -COORD_MAX <= a.z <= COORD_MAX
}

impl Vec3 {
    pub fn new(x: i64, y: i64, z: i64) -> (r: Vec3)
        ensures
            r == (Vec3 { x, y, z }),
    {
        Vec3 { x, y, z }
    }

    pub fn zero() -> (r: Vec3)
        ensures
            r == (Vec3 { x: 0i64, y: 0i64, z: 0i64 }),
    {
        Vec3 { x: 0, y: 0, z: 0 }
    }

    /// Whether this is the all-zero vector.
    pub fn is_zero(&self) -> (r: bool)
        ensures
            r == (self.x == 0 && self.y == 0 && self.z == 0),
    {
        self.x == 0 && self.y == 0 && self.z == 0
    }

    /// Componentwise sum.
    pub fn plus(&self, other: &Vec3) -> (r: Vec3)
        requires
            in_coord_range(*self),
            in_coord_range(*other),
        ensures
            r.x == self.x + other.x,
            r.y == self.y + other.y,
            r.z == self.z + other.z,
    {
        Vec3 { x: self.x + other.x, y: self.y + other.y, z: self.z + other.z }
    }
}

/// Product of two in-range coordinates, widened so it cannot overflow.
fn mul_coord(a: i64, b: i64) -> (r: i128)
    requires
        -COORD_MAX <= a <= COORD_MAX,
        -COORD_MAX <= b <= COORD_MAX,
    ensures
        r == a * b,
        -0x1000_0000_0000_0000 <= r <= 0x1000_0000_0000_0000,
{
    proof {
        lemma_coord_product_bound(a as int, b as int);
    }
    (a as i128) * (b as i128)
}

/// The product of two values bounded by 2^30 is bounded by 2^60.
proof fn lemma_coord_product_bound(a: int, b: int)
    requires
        -COORD_MAX <= a <= COORD_MAX,
        -COORD_MAX <= b <= COORD_MAX,
    ensures
        -0x1000_0000_0000_0000 <= a * b <= 0x1000_0000_0000_0000,
{
    assert(-0x1000_0000_0000_0000 <= a * b <= 0x1000_0000_0000_0000) by (nonlinear_arith)
        requires
            -0x4000_0000 <= a <= 0x4000_0000,
            -0x4000_0000 <= b <= 0x4000_0000,
    ;
}

/// A squared norm, a sum of squares, is never negative.
pub proof fn lemma_norm_sq_nonneg(a: Vec3)
    ensures
        norm_sq(a) >= 0,
{
    assert(a.x * a.x + a.y * a.y + a.z * a.z >= 0) by (nonlinear_arith);
}

/// Dot product computed in `i128`; exact and comfortably in range.
pub fn dot_wide(a: &Vec3, b: &Vec3) -> (r: i128)
    requires
        in_coord_range(*a),
        in_coord_range(*b),
    ensures
        r == dot(*a, *b),
        -0x3000_0000_0000_0000 <= r <= 0x3000_0000_0000_0000,
{
    let xx: i128 = mul_coord(a.x, b.x);
    let yy: i128 = mul_coord(a.y, b.y);
    let zz: i128 = mul_coord(a.z, b.z);
    xx + yy + zz
}

} // verus!
