use vstd::prelude::*;
use vstd::std_specs::cmp::{PartialOrdIs, PartialOrdSpec};

verus! {

/// The value that `wrap` gives: below the range it jumps to the top,
/// above the range it jumps to the bottom, inside it stays.
pub open spec fn wrapped<T: PartialOrd>(v: T, lo: T, hi: T) -> T {
    if v.is_lt(&lo) {
        hi
    } else if v.is_gt(&hi) {
        lo
    } else {
        v
    }
}

/// Inclusive range membership.
pub open spec fn in_range<T: PartialOrd>(v: T, lo: T, hi: T) -> bool {
    lo.is_le(&v) && v.is_le(&hi)
}

/// A single-step toroidal wrap of a scalar into `[lo, hi]`.
pub trait WrapScalar: PartialOrd + Sized {
    fn wrap(&self, lo: Self, hi: Self) -> (r: Self)
        ensures
            Self::obeys_partial_cmp_spec() ==> r == wrapped(*self, lo, hi),
    ;
}

/// Inclusive range test of a scalar.
pub trait BetweenScalar: PartialOrd + Sized {
    fn between(&self, lo: Self, hi: Self) -> (r: bool)
        ensures
            Self::obeys_partial_cmp_spec() ==> r == in_range(*self, lo, hi),
    ;
}

impl<T: PartialOrd + Copy> WrapScalar for T {
    fn wrap(&self, lo: T, hi: T) -> (r: T) {
        if *self < lo {
            hi
        } else if *self > hi {
            lo
        } else {
            *self
        }
    }
}

impl<T: PartialOrd + Copy> BetweenScalar for T {
    fn between(&self, lo: T, hi: T) -> (r: bool) {
        lo <= *self && *self <= hi
    }
}

/// A vector of whole world units: planet and item placements, offsets.
#[derive(Clone, Copy, Debug, PartialEq, Eq, Structural)]
pub struct Vector2i {
    pub x: i32,
    pub y: i32,
}

pub open spec fn dot_spec(a: Vector2i, b: Vector2i) -> int {
    a.x * b.x + a.y * b.y
}

/// The z component of the 3D cross product of the two vectors lifted to z = 0.
pub open spec fn cross_spec(a: Vector2i, b: Vector2i) -> int {
    a.x * b.y - a.y * b.x
}

pub fn vector_2i(x: i32, y: i32) -> (r: Vector2i)
    ensures
        r == (Vector2i { x, y }),
{
    Vector2i { x, y }
}

proof fn lemma_i32_product_bound(a: i32, b: i32)
    ensures
        -0x4000_0000_0000_0000 <= (a as int) * (b as int) <= 0x4000_0000_0000_0000,
{
    assert(-0x4000_0000_0000_0000 <= (a as int) * (b as int) <= 0x4000_0000_0000_0000)
        by (nonlinear_arith)
        requires
            -0x8000_0000 <= a < 0x8000_0000,
            -0x8000_0000 <= b < 0x8000_0000,
    ;
}

/// Dot product, exact: the widened result cannot overflow.
pub fn vector_2f_dot(a: Vector2i, b: Vector2i) -> (r: i128)
    ensures
        r == dot_spec(a, b),
{
    proof {
        lemma_i32_product_bound(a.x, b.x);
        lemma_i32_product_bound(a.y, b.y);
    }
    (a.x as i128) * (b.x as i128) + (a.y as i128) * (b.y as i128)
}

/// Two-dimensional cross product (signed parallelogram area), exact.
pub fn vector_2f_cross(a: Vector2i, b: Vector2i) -> (r: i128)
    ensures
        r == cross_spec(a, b),
{
    proof {
        lemma_i32_product_bound(a.x, b.y);
        lemma_i32_product_bound(a.y, b.x);
    }
    (a.x as i128) * (b.y as i128) - (a.y as i128) * (b.x as i128)
}

} // verus!
