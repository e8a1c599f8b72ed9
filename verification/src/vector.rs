use vstd::prelude::*;
use crate::fixed::{FX_SCALE, FX_MAX, fx_mul_spec, fx_mul};
use vstd::arithmetic::div_mod::*;

verus! {

/// A 2D fixed-point vector.
#[derive(Clone, Copy, PartialEq, Eq, Structural, Debug)]
pub struct Vector2 {
    pub x: i64,
    pub y: i64,
}

/// A 3D fixed-point vector.
#[derive(Clone, Copy, PartialEq, Eq, Structural, Debug)]
pub struct Vector3 {
    pub x: i64,
    pub y: i64,
    pub z: i64,
}

/// A plane rotation, given by the fixed-point cosine and sine of its angle.
#[derive(Clone, Copy, PartialEq, Eq, Structural, Debug)]
pub struct Rot2 {
    pub cos: i64,
    pub sin: i64,
}

/// X component of `(x, y)` rotated by `r`.
pub open spec fn rot_x_spec(x: int, y: int, r: Rot2) -> int {
    fx_mul_spec(x, r.cos as int) - fx_mul_spec(y, r.sin as int)
}

/// Y component of `(x, y)` rotated by `r`.
pub open spec fn rot_y_spec(x: int, y: int, r: Rot2) -> int {
    fx_mul_spec(x, r.sin as int) + fx_mul_spec(y, r.cos as int)
}

/// A rotation whose coefficients are at most one in magnitude.
pub open spec fn rot_wf(r: Rot2) -> bool {
    &&& -FX_SCALE <= r.cos <= FX_SCALE
    &&& -FX_SCALE <= r.sin <= FX_SCALE
}

/// A fixed-point product shrinks when one factor is at most one:
/// `|fx_mul_spec(a, b)| <= |a|` whenever `|b| <= FX_SCALE`.
pub proof fn lemma_fx_mul_contract(a: int, b: int, m: int)
    requires
        -m <= a <= m,
        0 <= m,
        -FX_SCALE <= b <= FX_SCALE,
    ensures
        -m <= fx_mul_spec(a, b) <= m,
{
    let s: int = FX_SCALE as int;
    assert(-(m * s) <= a * b <= m * s) by (nonlinear_arith)
        requires
            -m <= a <= m,
            0 <= m,
            -s <= b <= s,
            s == 1_000_000,
    ;
    lemma_div_multiples_vanish(m, s);
    assert(m * s == s * m) by (nonlinear_arith);
    if a * b >= 0 {
        lemma_div_is_ordered(a * b, m * s, s);
        lemma_div_is_ordered(0, a * b, s);
    } else {
        lemma_div_is_ordered(-(a * b), m * s, s);
        lemma_div_is_ordered(0, -(a * b), s);
    }
}

impl Vector2 {
    pub fn new(x: i64, y: i64) -> (v: Vector2)
        ensures
            v.x == x,
            v.y == y,
    {
        Vector2 { x, y }
    }

    /// Rotate the vector in place by `r`.
    pub fn rotate(&mut self, r: Rot2)
        requires
            rot_wf(r),
            -FX_MAX <= old(self).x <= FX_MAX,
            -FX_MAX <= old(self).y <= FX_MAX,
        ensures
            final(self).x == rot_x_spec(old(self).x as int, old(self).y as int, r),
            final(self).y == rot_y_spec(old(self).x as int, old(self).y as int, r),
            -2 * FX_MAX <= final(self).x <= 2 * FX_MAX,
            -2 * FX_MAX <= final(self).y <= 2 * FX_MAX,
    {
        proof {
            lemma_fx_mul_contract(self.x as int, r.cos as int, FX_MAX as int);
            lemma_fx_mul_contract(self.x as int, r.sin as int, FX_MAX as int);
            lemma_fx_mul_contract(self.y as int, r.cos as int, FX_MAX as int);
            lemma_fx_mul_contract(self.y as int, r.sin as int, FX_MAX as int);
        }
        let xc: i64 = fx_mul(self.x, r.cos);
        let xs: i64 = fx_mul(self.x, r.sin);
        let yc: i64 = fx_mul(self.y, r.cos);
        let ys: i64 = fx_mul(self.y, r.sin);
        self.x = xc - ys;
        self.y = xs + yc;
    }
}

impl Default for Vector2 {
    /// The zero vector.
    fn default() -> (v: Vector2)
        ensures
            v.x == 0,
            v.y == 0,
    {
        Vector2 { x: 0, y: 0 }
    }
}

impl Vector3 {
    pub fn new(x: i64, y: i64, z: i64) -> (v: Vector3)
        ensures
            v.x == x,
            v.y == y,
            v.z == z,
    {
        Vector3 { x, y, z }
    }
}

impl Default for Vector3 {
    /// The zero vector.
    fn default() -> (v: Vector3)
        ensures
            v.x == 0,
            v.y == 0,
            v.z == 0,
    {
        Vector3 { x: 0, y: 0, z: 0 }
    }
}

} // verus!
