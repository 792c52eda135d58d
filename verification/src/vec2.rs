//! 2D vector over fixed-point integer coordinates, with the accumulate-add
//! and scale operations the physics core uses, plus Euclidean magnitude and
//! a scaled unit-vector conversion.

use vstd::prelude::*;
use crate::num::{div_trunc_i128, isqrt_u64, lemma_tdiv_bound, mul_i128, sqrt_floor, tdiv};

verus! {

/// Fixed-point scale of unit vectors: `normalized` returns a vector whose
/// true Euclidean length is (close to) `NORM_SCALE`.
pub const NORM_SCALE: i64 = 1_000_000;

#[derive(Clone, Copy, PartialEq, Eq, Structural, Debug)]
pub struct Vec2 {
    pub x: i64,
    pub y: i64,
}

/// Squared Euclidean length.
pub open spec fn mag_sq(v: Vec2) -> int {
    v.x * v.x + v.y * v.y
}

/// Dot product.
pub open spec fn spec_dot(a: Vec2, b: Vec2) -> int {
    a.x * b.x + a.y * b.y
}

/// The unit vector along `v`, scaled by `NORM_SCALE` and truncated.
pub open spec fn spec_normalized(v: Vec2) -> Vec2
    recommends
        mag_sq(v) > 0,
{
    let m = sqrt_floor(mag_sq(v));
    Vec2 { x: tdiv(v.x * NORM_SCALE, m) as i64, y: tdiv(v.y * NORM_SCALE, m) as i64 }
}

impl Vec2 {
    /// Component-wise accumulate-add; mutates `self` as the original
    /// accumulation steps do.
    pub fn add(&mut self, other: &Vec2)
        requires
            i64::MIN <= old(self).x + other.x <= i64::MAX,
            i64::MIN <= old(self).y + other.y <= i64::MAX,
        ensures
            final(self).x == old(self).x + other.x,
            final(self).y == old(self).y + other.y,
    {
        self.x = self.x + other.x;
        self.y = self.y + other.y;
    }

    /// A new vector scaled by `constant`; does not mutate `self`.
    pub fn mult(&self, constant: i64) -> (r: Vec2)
        requires
            i64::MIN <= self.x * constant <= i64::MAX,
            i64::MIN <= self.y * constant <= i64::MAX,
        ensures
            r.x == self.x * constant,
            r.y == self.y * constant,
    {
        Vec2 { x: self.x * constant, y: self.y * constant }
    }

    /// Euclidean length, rounded down.
    pub fn get_magnitude(&self) -> (r: i64)
        requires
            -2_000_000_000 <= self.x <= 2_000_000_000,
            -2_000_000_000 <= self.y <= 2_000_000_000,
        ensures
            r == sqrt_floor(mag_sq(*self)),
            0 <= r <= 3_000_000_000,
    {
        proof {
            assert(self.x * self.x >= 0 && self.y * self.y >= 0) by (nonlinear_arith);
        }
        let xs = mul_i128(self.x as i128, self.x as i128, Ghost(2_000_000_000), Ghost(
            2_000_000_000,
        ));
        let ys = mul_i128(self.y as i128, self.y as i128, Ghost(2_000_000_000), Ghost(
            2_000_000_000,
        ));
        let sq: u64 = (xs + ys) as u64;
        let r = isqrt_u64(sq);
        proof {
            assert(mag_sq(*self) < 3_000_000_000 * 3_000_000_000) by (nonlinear_arith)
                requires
                    -2_000_000_000 <= self.x <= 2_000_000_000,
                    -2_000_000_000 <= self.y <= 2_000_000_000,
                    mag_sq(*self) == self.x * self.x + self.y * self.y,
            ;
            assert(r <= 3_000_000_000) by (nonlinear_arith)
                requires
                    r >= 0,
                    r * r <= mag_sq(*self),
                    mag_sq(*self) < 3_000_000_000 * 3_000_000_000,
            ;
        }
        r as i64
    }

    /// The direction of `self` as a `NORM_SCALE`-scaled unit vector.
    /// Undefined for the zero vector: the caller must guard.
    pub fn normalized(&self) -> (r: Vec2)
        requires
            mag_sq(*self) > 0,
            -2_000_000_000 <= self.x <= 2_000_000_000,
            -2_000_000_000 <= self.y <= 2_000_000_000,
        ensures
            r == spec_normalized(*self),
            -NORM_SCALE <= r.x <= NORM_SCALE,
            -NORM_SCALE <= r.y <= NORM_SCALE,
    {
        let m = self.get_magnitude();
        proof {
            crate::num::lemma_sqrt_floor_is_isqrt(mag_sq(*self));
            assert(m >= 1) by (nonlinear_arith)
                requires
                    m >= 0,
                    mag_sq(*self) > 0,
                    mag_sq(*self) < (m + 1) * (m + 1),
            ;
            assert(self.x * self.x >= 0 && self.y * self.y >= 0) by (nonlinear_arith);
            assert(-m <= self.x <= m) by (nonlinear_arith)
                requires
                    m >= 1,
                    self.x * self.x < (m + 1) * (m + 1),
            ;
            assert(-m <= self.y <= m) by (nonlinear_arith)
                requires
                    m >= 1,
                    self.y * self.y < (m + 1) * (m + 1),
            ;
            lemma_tdiv_bound(self.x * 1_000_000, m as int, 1_000_000);
            lemma_tdiv_bound(self.y * 1_000_000, m as int, 1_000_000);
        }
        let nx = div_trunc_i128(
            mul_i128(self.x as i128, 1_000_000, Ghost(2_000_000_000), Ghost(1_000_000)),
            m as i128,
        );
        let ny = div_trunc_i128(
            mul_i128(self.y as i128, 1_000_000, Ghost(2_000_000_000), Ghost(1_000_000)),
            m as i128,
        );
        Vec2 { x: nx as i64, y: ny as i64 }
    }
}

} // verus!
