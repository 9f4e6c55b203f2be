//! Signed fixed-point arithmetic on `i128` values scaled by `FX_SCALE`.
//!
//! A quantity of one physical unit (kilogram, centimetre, year, ohm,
//! percent, kilocalorie) is stored as `FX_SCALE` fixed-point units, so
//! every calibration constant of the calculator (down to `0.245691014`)
//! is representable exactly.  Division truncates toward zero.
use vstd::prelude::*;
use vstd::arithmetic::div_mod::lemma_fundamental_div_mod;
use vstd::math::abs;

verus! {

/// Number of fixed-point units in one physical unit.
pub const FX_SCALE: i128 = 1_000_000_000;

/// Largest magnitude accepted for an intermediate product `x * num`;
/// far below `i128::MAX`, so the helpers never overflow.
pub const FX_PRODUCT_LIMIT: i128 = 100_000_000_000_000_000_000_000_000_000_000_000_000;

/// Largest magnitude `fx_div` accepts for its dividend.
pub const FX_DIV_LIMIT: i128 = 10_000_000_000_000_000_000_000_000_000;

/// Truncating (round-toward-zero) integer division, the rounding rule of
/// every fixed-point operation in this crate.
pub open spec fn fx_tdiv(p: int, q: int) -> int {
    if (p >= 0) == (q >= 0) {
        abs(p) as int / abs(q) as int
    } else {
        -(abs(p) as int / abs(q) as int)
    }
}

/// Fixed-point value `x` times the exact rational constant `num / den`.
pub open spec fn fx_scale_spec(x: int, num: int, den: int) -> int {
    fx_tdiv(x * num, den)
}

/// Product of two fixed-point values.
pub open spec fn fx_mul_spec(x: int, y: int) -> int {
    fx_tdiv(x * y, FX_SCALE as int)
}

/// Quotient of two fixed-point values.
pub open spec fn fx_div_spec(x: int, y: int) -> int {
    fx_tdiv(x * FX_SCALE, y)
}

/// The magnitude of a product is the product of the magnitudes.
pub proof fn lemma_abs_mul(a: int, b: int)
    ensures
        abs(a * b) == abs(a) * abs(b),
{
    if a >= 0 && b >= 0 {
        assert(a * b >= 0) by (nonlinear_arith)
            requires a >= 0, b >= 0;
    } else if a < 0 && b < 0 {
        assert(a * b >= 0 && (-a) * (-b) == a * b) by (nonlinear_arith)
            requires a < 0, b < 0;
    } else if a < 0 {
        assert(a * b <= 0 && (-a) * b == -(a * b)) by (nonlinear_arith)
            requires a < 0, b >= 0;
    } else {
        assert(a * b <= 0 && a * (-b) == -(a * b)) by (nonlinear_arith)
            requires a >= 0, b < 0;
    }
}

/// Monotonicity of products of non-negative bounds.
pub proof fn lemma_mul_le(a: int, b: int, c: int, d: int)
    requires
        0 <= a <= c,
        0 <= b <= d,
    ensures
        a * b <= c * d,
{
    assert(a * b <= c * d) by (nonlinear_arith)
        requires 0 <= a <= c, 0 <= b <= d;
}

/// Truncating division of `p` by a nonzero `q`.
fn tdiv_exec(p: i128, q: i128) -> (r: i128)
    requires
        q != 0,
        p > i128::MIN,
        q > i128::MIN,
    ensures
        r == fx_tdiv(p as int, q as int),
        abs(r as int) * abs(q as int) <= abs(p as int),
{
    let pa: i128 = if p < 0 { -p } else { p };
    let qa: i128 = if q < 0 { -q } else { q };
    let m: i128 = pa / qa;
    proof {
        lemma_fundamental_div_mod(pa as int, qa as int);
        vstd::arithmetic::div_mod::lemma_div_pos_is_pos(pa as int, qa as int);
        assert((m as int) * (qa as int) == (qa as int) * (m as int)) by (nonlinear_arith);
    }
    if (p < 0) == (q < 0) {
        m
    } else {
        -m
    }
}

/// Multiplies the fixed-point value `x` by the rational constant `num / den`.
pub fn fx_scale(x: i128, num: i128, den: i128) -> (r: i128)
    requires
        0 < den <= FX_PRODUCT_LIMIT,
        -(FX_PRODUCT_LIMIT as int) <= x * num <= FX_PRODUCT_LIMIT as int,
    ensures
        r == fx_scale_spec(x as int, num as int, den as int),
        abs(r as int) * den <= abs(x * num),
{
    let p: i128 = x * num;
    tdiv_exec(p, den)
}

/// Product of two fixed-point values, rescaled to fixed point.
pub fn fx_mul(x: i128, y: i128) -> (r: i128)
    requires
        abs(x as int) * abs(y as int) <= FX_PRODUCT_LIMIT as int,
    ensures
        r == fx_mul_spec(x as int, y as int),
        abs(r as int) * (FX_SCALE as int) <= abs(x as int) * abs(y as int),
{
    proof {
        lemma_abs_mul(x as int, y as int);
    }
    let p: i128 = x * y;
    tdiv_exec(p, FX_SCALE)
}

/// Quotient of two fixed-point values, rescaled to fixed point.
pub fn fx_div(x: i128, y: i128) -> (r: i128)
    requires
        y != 0,
        y > i128::MIN,
        abs(x as int) <= FX_DIV_LIMIT as int,
    ensures
        r == fx_div_spec(x as int, y as int),
        abs(r as int) * abs(y as int) <= abs(x as int) * (FX_SCALE as int),
{
    proof {
        lemma_abs_mul(x as int, FX_SCALE as int);
    }
    let p: i128 = x * FX_SCALE;
    tdiv_exec(p, y)
}

} // verus!
