use vstd::prelude::*;
use vstd::arithmetic::div_mod::*;

verus! {

/// Number of raw steps in one map unit. Continuous quantities (positions,
/// velocities, wall heights, trig coefficients) are held as `i64` multiples
/// of `1 / FX_SCALE` of a map unit.
pub const FX_SCALE: i64 = 1_000_000;

/// Largest raw coordinate magnitude the movement core works with
/// (one million map units); keeps every product taken below within `i64`.
pub const FX_MAX: i64 = 1_000_000_000_000;

/// Largest coordinate magnitude the resolver accepts for actors and portal
/// endpoints; leaves room under `FX_MAX` for offsets and remapping.
pub const POS_LIMIT: i64 = 100_000_000_000;

/// Division rounded toward zero, the rounding that Rust's `/` performs on
/// signed integers. Spec-level `/` on `int` is Euclidean, hence the split.
pub open spec fn div_t(a: int, b: int) -> int {
    if a >= 0 {
        a / b
    } else {
        -((-a) / b)
    }
}

/// Product of two fixed-point numbers, rounded toward zero.
pub open spec fn fx_mul_spec(a: int, b: int) -> int {
    div_t(a * b, FX_SCALE as int)
}

/// Index of the grid cell a fixed-point coordinate falls in (floor).
pub open spec fn fx_cell_spec(a: int) -> int {
    a / (FX_SCALE as int)
}

/// Fixed-point coordinate of the low edge of the cell `a` falls in.
pub open spec fn fx_floor_spec(a: int) -> int {
    (FX_SCALE as int) * (a / (FX_SCALE as int))
}

/// Offset of `a` within its cell, in `[0, FX_SCALE)`.
pub open spec fn fx_fract_spec(a: int) -> int {
    a % (FX_SCALE as int)
}

proof fn lemma_prod_in_i128(a: int, b: int)
    requires
        i64::MIN <= a <= i64::MAX,
        i64::MIN <= b <= i64::MAX,
    ensures
        i128::MIN <= a * b <= i128::MAX,
{
    assert(i128::MIN <= a * b <= i128::MAX) by (nonlinear_arith)
        requires
            -0x8000_0000_0000_0000 <= a <= 0x7fff_ffff_ffff_ffff,
            -0x8000_0000_0000_0000 <= b <= 0x7fff_ffff_ffff_ffff,
    ;
}

proof fn lemma_prod_in_u128(a: int, b: int)
    requires
        0 <= a <= u64::MAX,
        0 <= b <= u64::MAX,
    ensures
        0 <= a * b <= u128::MAX,
{
    assert(0 <= a * b <= u128::MAX) by (nonlinear_arith)
        requires
            0 <= a <= 0xffff_ffff_ffff_ffff,
            0 <= b <= 0xffff_ffff_ffff_ffff,
    ;
}

/// Fixed-point multiplication: `a * b` scaled back down, rounded toward zero.
pub fn fx_mul(a: i64, b: i64) -> (r: i64)
    requires
        i64::MIN <= fx_mul_spec(a as int, b as int) <= i64::MAX,
    ensures
        r == fx_mul_spec(a as int, b as int),
{
    proof {
        lemma_prod_in_i128(a as int, b as int);
    }
    let p: i128 = (a as i128) * (b as i128);
    (p / (FX_SCALE as i128)) as i64
}

/// Grid cell index of a fixed-point coordinate (floor).
pub fn fx_cell(a: i64) -> (r: i64)
    requires
        -FX_MAX <= a <= FX_MAX,
    ensures
        r == fx_cell_spec(a as int),
{
    if a >= 0 {
        a / FX_SCALE
    } else {
        let n: i64 = -a;
        let q: i64 = n / FX_SCALE;
        let m: i64 = n % FX_SCALE;
        if m == 0 {
            proof {
                lemma_fundamental_div_mod(n as int, FX_SCALE as int);
                lemma_fundamental_div_mod_converse(a as int, FX_SCALE as int, -q, 0);
            }
            -q
        } else {
            proof {
                lemma_fundamental_div_mod(n as int, FX_SCALE as int);
                lemma_fundamental_div_mod_converse(
                    a as int,
                    FX_SCALE as int,
                    -q - 1,
                    FX_SCALE - m,
                );
            }
            -q - 1
        }
    }
}

/// Fixed-point coordinate of the low edge of the cell `a` falls in.
pub fn fx_floor(a: i64) -> (r: i64)
    requires
        -FX_MAX <= a <= FX_MAX,
    ensures
        r == fx_floor_spec(a as int),
{
    proof {
        lemma_fundamental_div_mod(a as int, FX_SCALE as int);
    }
    let c: i64 = fx_cell(a);
    c * FX_SCALE
}

/// Offset of `a` within its cell, in `[0, FX_SCALE)`.
pub fn fx_fract(a: i64) -> (r: i64)
    requires
        -FX_MAX <= a <= FX_MAX,
    ensures
        r == fx_fract_spec(a as int),
        0 <= r < FX_SCALE,
{
    proof {
        lemma_fundamental_div_mod(a as int, FX_SCALE as int);
    }
    let f: i64 = fx_floor(a);
    a - f
}

/// Truncated division of signed fixed-point values by a positive divisor.
pub fn div_trunc(a: i64, b: i64) -> (r: i64)
    requires
        b > 0,
    ensures
        r == div_t(a as int, b as int),
{
    a / b
}

/// Integer square root: the greatest `r` with `r * r <= n`.
pub fn isqrt(n: u128) -> (r: u64)
    requires
        n < 0xffff_ffff_ffff_ffff * 0xffff_ffff_ffff_ffff,
    ensures
        (r as int) * (r as int) <= n as int,
        (n as int) < ((r as int + 1) * (r as int + 1)),
{
    let mut lo: u64 = 0;
    let mut hi: u64 = u64::MAX;
    while lo + 1 < hi
        invariant
            lo < hi,
            (lo as int) * (lo as int) <= n as int,
            (n as int) < ((hi as int) * (hi as int)),
        decreases hi - lo,
    {
        let mid: u64 = lo + (hi - lo) / 2;
        proof {
            lemma_prod_in_u128(mid as int, mid as int);
        }
        let sq: u128 = (mid as u128) * (mid as u128);
        if sq <= n {
            lo = mid;
        } else {
            hi = mid;
        }
    }
    lo
}

/// Magnitude of an integer.
pub open spec fn abs_i(a: int) -> int {
    if a >= 0 {
        a
    } else {
        -a
    }
}

/// Sign of an integer: `-1`, `0` or `1`.
pub open spec fn sign_i(a: int) -> int {
    if a > 0 {
        1
    } else if a < 0 {
        -1
    } else {
        0
    }
}

/// The integer square root as a specification value: the unique `r >= 0`
/// with `r * r <= n < (r + 1) * (r + 1)`.
pub open spec fn isqrt_spec(n: int) -> int {
    choose|r: int| 0 <= r && #[trigger] (r * r) <= n && n < ((r + 1) * (r + 1))
}

/// A bound on both factors bounds the product.
pub proof fn lemma_mul_le(a: int, b: int, ma: int, mb: int)
    requires
        -ma <= a <= ma,
        -mb <= b <= mb,
        0 <= ma,
        0 <= mb,
    ensures
        -(ma * mb) <= a * b <= ma * mb,
{
    assert(-(ma * mb) <= a * b <= ma * mb) by (nonlinear_arith)
        requires
            -ma <= a <= ma,
            -mb <= b <= mb,
            0 <= ma,
            0 <= mb,
    ;
}

/// A bound on both factors bounds the fixed-point product.
pub proof fn lemma_fx_mul_bound(a: int, b: int, ma: int, mb: int)
    requires
        -ma <= a <= ma,
        -mb <= b <= mb,
        0 <= ma,
        0 <= mb,
    ensures
        -((ma * mb) / (FX_SCALE as int)) <= fx_mul_spec(a, b) <= (ma * mb) / (FX_SCALE as int),
{
    let s: int = FX_SCALE as int;
    lemma_mul_le(a, b, ma, mb);
    lemma_div_is_ordered(0, ma * mb, s);
    if a * b >= 0 {
        lemma_div_is_ordered(a * b, ma * mb, s);
        lemma_div_is_ordered(0, a * b, s);
    } else {
        lemma_div_is_ordered(-(a * b), ma * mb, s);
        lemma_div_is_ordered(0, -(a * b), s);
    }
}

/// Any value satisfying the square-root bracket is the specification root.
pub proof fn lemma_isqrt_unique(n: int, r: int)
    requires
        0 <= r,
        r * r <= n,
        n < ((r + 1) * (r + 1)),
    ensures
        isqrt_spec(n) == r,
{
    assert(0 <= r && r * r <= n && n < ((r + 1) * (r + 1)));
    let c = isqrt_spec(n);
    assert(0 <= c && c * c <= n && n < ((c + 1) * (c + 1)));
    assert(c == r) by (nonlinear_arith)
        requires
            0 <= r,
            r * r <= n,
            n < ((r + 1) * (r + 1)),
            0 <= c,
            c * c <= n,
            n < ((c + 1) * (c + 1)),
    ;
}

/// Multiplying by the fixed-point one (or its negation, or zero) is exact.
pub proof fn lemma_fx_mul_unit(a: int)
    ensures
        fx_mul_spec(a, FX_SCALE as int) == a,
        fx_mul_spec(a, -(FX_SCALE as int)) == -a,
        fx_mul_spec(a, 0) == 0,
        fx_mul_spec(FX_SCALE as int, a) == a,
        fx_mul_spec(-(FX_SCALE as int), a) == -a,
        fx_mul_spec(0, a) == 0,
{
    let s: int = FX_SCALE as int;
    if a >= 0 {
        lemma_div_multiples_vanish(a, s);
        assert(a * s == s * a) by (nonlinear_arith);
        assert(a * -s == -(s * a)) by (nonlinear_arith);
    } else {
        lemma_div_multiples_vanish(-a, s);
        assert(a * s == -(s * -a)) by (nonlinear_arith);
        assert(a * -s == s * -a) by (nonlinear_arith);
    }
    assert(a * 0 == 0) by (nonlinear_arith);
    assert(s * a == a * s) by (nonlinear_arith);
    assert(-s * a == a * -s) by (nonlinear_arith);
    assert(0 * a == a * 0) by (nonlinear_arith);
}

} // verus!
