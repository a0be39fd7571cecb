//! A two-dimensional vector of fixed-point scalars.

use vstd::prelude::*;
use crate::fixed::{clamp, fx_div, fx_mul, isqrt, sat_add, sat_sub, unsigned_abs};
use crate::fixed::{floor_sqrt, is_floor_sqrt, saturate, spec_clamp};

verus! {

#[derive(Clone, Copy, PartialEq, Eq, Structural, Debug)]
pub struct Vector2 {
    pub x: i64,
    pub y: i64,
}

impl Vector2 {
    pub fn new(x: i64, y: i64) -> (r: Self)
        ensures
            r.x == x,
            r.y == y,
    {
        Self { x, y }
    }

    pub fn zero() -> (r: Self)
        ensures
            r.x == 0,
            r.y == 0,
    {
        Self { x: 0, y: 0 }
    }

    pub open spec fn spec_magnitude(&self) -> i64 {
        saturate(floor_sqrt(self.x * self.x + self.y * self.y))
    }

    /// The length: the square root of the sum of the squares, rounded down.
    /// It is zero for the zero vector only.
    #[verifier::when_used_as_spec(spec_magnitude)]
    pub fn magnitude(&self) -> (r: i64)
        ensures
            r == saturate(floor_sqrt(self.x * self.x + self.y * self.y)),
            r >= 0,
            r == 0 <==> self.x == 0 && self.y == 0,
    {
        let ax: u128 = unsigned_abs(self.x);
        let ay: u128 = unsigned_abs(self.y);
        proof {
            let x = self.x as int;
            let y = self.y as int;
            assert(ax * ax == x * x && ax * ax <= 0x4000_0000_0000_0000_0000_0000_0000_0000 && (x
                != 0 ==> x * x >= 1)) by (nonlinear_arith)
                requires
                    ax == x || ax == -x,
                    0 <= ax <= 0x8000_0000_0000_0000,
            ;
            assert(ay * ay == y * y && ay * ay <= 0x4000_0000_0000_0000_0000_0000_0000_0000 && (y
                != 0 ==> y * y >= 1)) by (nonlinear_arith)
                requires
                    ay == y || ay == -y,
                    0 <= ay <= 0x8000_0000_0000_0000,
            ;
        }
        let root: u64 = isqrt(ax * ax + ay * ay);
        proof {
            let n = self.x * self.x + self.y * self.y;
            assert(is_floor_sqrt(n, root as int));
            assert(root == 0 <==> n == 0) by (nonlinear_arith)
                requires
                    is_floor_sqrt(n, root as int),
            ;
        }
        if root > 0x7FFF_FFFF_FFFF_FFFF {
            i64::MAX
        } else {
            root as i64
        }
    }

    /// Scales the vector to unit length in place: each component is divided
    /// by the magnitude. The zero vector has no direction and is not
    /// accepted.
    pub fn norm(&mut self)
        requires
            old(self).x != 0 || old(self).y != 0,
        ensures
            final(self).x == fx_div(old(self).x, old(self).magnitude()),
            final(self).y == fx_div(old(self).y, old(self).magnitude()),
    {
        let mag: i64 = self.magnitude();
        self.x = fx_div(self.x, mag);
        self.y = fx_div(self.y, mag);
    }

    pub open spec fn spec_mul(&self, val: i64) -> Vector2 {
        Vector2 { x: fx_mul(self.x, val), y: fx_mul(self.y, val) }
    }

    /// Both components times a scalar.
    #[verifier::when_used_as_spec(spec_mul)]
    pub fn mul(&self, val: i64) -> (r: Vector2)
        ensures
            r.x == fx_mul(self.x, val),
            r.y == fx_mul(self.y, val),
    {
        Vector2 { x: fx_mul(self.x, val), y: fx_mul(self.y, val) }
    }

    pub open spec fn spec_dot(&self, other: &Vector2) -> i64 {
        sat_add(fx_mul(self.x, other.x), fx_mul(self.y, other.y))
    }

    /// Dot product: the sum of the two component products.
    #[verifier::when_used_as_spec(spec_dot)]
    pub fn dot(&self, other: &Vector2) -> (r: i64)
        ensures
            r == sat_add(fx_mul(self.x, other.x), fx_mul(self.y, other.y)),
    {
        sat_add(fx_mul(self.x, other.x), fx_mul(self.y, other.y))
    }

    pub open spec fn spec_cross(&self, other: &Vector2) -> i64 {
        sat_sub(fx_mul(self.x, other.y), fx_mul(self.y, other.x))
    }

    /// The z component of the cross product.
    #[verifier::when_used_as_spec(spec_cross)]
    pub fn cross(&self, other: &Vector2) -> (r: i64)
        ensures
            r == sat_sub(fx_mul(self.x, other.y), fx_mul(self.y, other.x)),
    {
        sat_sub(fx_mul(self.x, other.y), fx_mul(self.y, other.x))
    }

    pub open spec fn spec_add(&self, other: &Vector2) -> Vector2 {
        Vector2 { x: sat_add(self.x, other.x), y: sat_add(self.y, other.y) }
    }

    #[verifier::when_used_as_spec(spec_add)]
    pub fn add(&self, other: &Vector2) -> (r: Vector2)
        ensures
            r.x == sat_add(self.x, other.x),
            r.y == sat_add(self.y, other.y),
    {
        Vector2 { x: sat_add(self.x, other.x), y: sat_add(self.y, other.y) }
    }

    pub open spec fn spec_sub(&self, other: &Vector2) -> Vector2 {
        Vector2 { x: sat_sub(self.x, other.x), y: sat_sub(self.y, other.y) }
    }

    #[verifier::when_used_as_spec(spec_sub)]
    pub fn sub(&self, other: &Vector2) -> (r: Vector2)
        ensures
            r.x == sat_sub(self.x, other.x),
            r.y == sat_sub(self.y, other.y),
    {
        Vector2 { x: sat_sub(self.x, other.x), y: sat_sub(self.y, other.y) }
    }

    /// Adds `x` and `y` to the components in place.
    pub fn inc(&mut self, x: i64, y: i64)
        ensures
            final(self).x == sat_add(old(self).x, x),
            final(self).y == sat_add(old(self).y, y),
    {
        self.x = sat_add(self.x, x);
        self.y = sat_add(self.y, y);
    }

    /// Takes `x` and `y` off the components in place.
    pub fn dec(&mut self, x: i64, y: i64)
        ensures
            final(self).x == sat_sub(old(self).x, x),
            final(self).y == sat_sub(old(self).y, y),
    {
        self.x = sat_sub(self.x, x);
        self.y = sat_sub(self.y, y);
    }

    /// Clamps each component into its interval in place and returns what was
    /// cut off: the old value less the new one, per axis. A component of the
    /// result is non-zero exactly when that axis was clamped.
    pub fn clamp(&mut self, xmin: i64, xmax: i64, ymin: i64, ymax: i64) -> (changes: Vector2)
        ensures
            final(self).x == spec_clamp(old(self).x, xmin, xmax),
            final(self).y == spec_clamp(old(self).y, ymin, ymax),
            changes.x == sat_sub(old(self).x, final(self).x),
            changes.y == sat_sub(old(self).y, final(self).y),
            changes.x != 0 <==> final(self).x != old(self).x,
            changes.y != 0 <==> final(self).y != old(self).y,
    {
        let newx: i64 = clamp(self.x, xmin, xmax);
        let newy: i64 = clamp(self.y, ymin, ymax);
        let changes = Vector2 { x: sat_sub(self.x, newx), y: sat_sub(self.y, newy) };
        self.x = newx;
        self.y = newy;
        changes
    }
}

} // verus!
