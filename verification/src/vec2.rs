//! Two-dimensional fixed-point vectors.
//!
//! Each method is mirrored by a spec function, so that the kernel's
//! contracts can speak of vector arithmetic exactly.

use crate::fixed::fdiv;
use crate::fixed::fmul;
use crate::fixed::fp_div;
use crate::fixed::fp_mul;
use crate::fixed::fp_sqrt;
use crate::fixed::fsqrt;
use crate::fixed::sadd;
use crate::fixed::sat64;
use vstd::prelude::*;

verus! {

/// A 2D vector of fixed-point coordinates.
#[derive(Clone, Copy, Debug)]
pub struct Vec2 {
    pub x: i64,
    pub y: i64,
}

/// Build a vector from two unbounded coordinates, clamping each to the
/// `i64` range.
pub open spec fn v2s(x: int, y: int) -> Vec2 {
    Vec2 { x: sat64(x) as i64, y: sat64(y) as i64 }
}

/// The saturated componentwise sum.
pub open spec fn add_s(a: Vec2, b: Vec2) -> Vec2 {
    v2s(a.x + b.x, a.y + b.y)
}

/// The saturated componentwise difference.
pub open spec fn sub_s(a: Vec2, b: Vec2) -> Vec2 {
    v2s(a.x - b.x, a.y - b.y)
}

/// The vector scaled by a fixed-point factor.
pub open spec fn scale_s(a: Vec2, s: int) -> Vec2 {
    v2s(fmul(a.x as int, s), fmul(a.y as int, s))
}

/// The fixed-point dot product.
pub open spec fn dot_s(a: Vec2, b: Vec2) -> int {
    sadd(fmul(a.x as int, b.x as int), fmul(a.y as int, b.y as int))
}

/// The saturated squared length.
pub open spec fn len_sq_s(a: Vec2) -> int {
    sadd(fmul(a.x as int, a.x as int), fmul(a.y as int, a.y as int))
}

/// The fixed-point length.
pub open spec fn len_s(a: Vec2) -> int {
    fsqrt(len_sq_s(a))
}

/// The unit vector in the direction of `a`, or `a` itself when its
/// length is zero.
pub open spec fn normalized_s(a: Vec2) -> Vec2 {
    let len = len_s(a);
    if len > 0 {
        v2s(fdiv(a.x as int, len), fdiv(a.y as int, len))
    } else {
        a
    }
}

/// The vector rescaled to length `max` when it is longer than `max`.
pub open spec fn limit_s(a: Vec2, max: int) -> Vec2 {
    let len = len_s(a);
    if len > max && len > 0 {
        scale_s(a, fdiv(max, len))
    } else {
        a
    }
}

impl Vec2 {
    /// Build a vector from its coordinates.
    pub fn new(x: i64, y: i64) -> (r: Self)
        ensures
            r == (Vec2 { x, y }),
    {
        Self { x, y }
    }

    /// The fixed-point length of the vector.
    pub fn length(&self) -> (r: i64)
        ensures
            r as int == len_s(*self),
            r >= 0,
    {
        fp_sqrt(self.length_squared())
    }

    /// The saturated squared length of the vector.
    pub fn length_squared(&self) -> (r: i64)
        ensures
            r as int == len_sq_s(*self),
    {
        let xx: i64 = fp_mul(self.x, self.x);
        let yy: i64 = fp_mul(self.y, self.y);
        crate::fixed::fp_add(xx, yy)
    }

    /// The unit vector in this direction, or the vector itself when its
    /// length is zero.
    pub fn normalized(&self) -> (r: Self)
        ensures
            r == normalized_s(*self),
    {
        let len: i64 = self.length();
        if len > 0 {
            Self { x: fp_div(self.x, len), y: fp_div(self.y, len) }
        } else {
            *self
        }
    }

    /// The vector scaled by a fixed-point factor.
    pub fn scale(&self, s: i64) -> (r: Self)
        ensures
            r == scale_s(*self, s as int),
    {
        Self { x: fp_mul(self.x, s), y: fp_mul(self.y, s) }
    }

    /// The saturated componentwise sum.
    pub fn add(&self, other: Self) -> (r: Self)
        ensures
            r == add_s(*self, other),
    {
        Self { x: crate::fixed::fp_add(self.x, other.x), y: crate::fixed::fp_add(self.y, other.y) }
    }

    /// The saturated componentwise difference.
    pub fn sub(&self, other: Self) -> (r: Self)
        ensures
            r == sub_s(*self, other),
    {
        Self { x: crate::fixed::fp_sub(self.x, other.x), y: crate::fixed::fp_sub(self.y, other.y) }
    }

    /// The fixed-point dot product.
    pub fn dot(&self, other: Self) -> (r: i64)
        ensures
            r as int == dot_s(*self, other),
    {
        let xx: i64 = fp_mul(self.x, other.x);
        let yy: i64 = fp_mul(self.y, other.y);
        crate::fixed::fp_add(xx, yy)
    }

    /// Rescale the vector to length `max` when it is longer than `max`.
    pub fn limit(&self, max: i64) -> (r: Self)
        ensures
            r == limit_s(*self, max as int),
    {
        let len: i64 = self.length();
        if len > max && len > 0 {
            let s: i64 = fp_div(max, len);
            self.scale(s)
        } else {
            *self
        }
    }
}

} // verus!
