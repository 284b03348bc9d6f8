//! Fixed-point reals.
//!
//! Every length, time, speed and angle of the engine is a [`Fixed`]: a signed
//! count of millionths. All operations are total. A result that leaves the
//! representable range sticks at the nearest bound, and a division by zero
//! gives the bound of the dividend's sign, so that a ray which runs parallel
//! to an axis sees that axis as infinitely far away.
use vstd::prelude::*;

verus! {

/// A real number, counted in millionths.
pub type Fixed = i64;

/// The number one.
pub const ONE: i64 = 1_000_000;

/// The number two.
pub const TWO: i64 = 2_000_000;

/// One half.
pub const HALF: i64 = 500_000;

/// The largest magnitude a [`Fixed`] result takes.
pub const BOUND: i64 = 9_223_372_036_854_775_807;

/// A quarter turn in radians.
pub const QUARTER_TURN: i64 = 1_570_796;

/// `v` brought into the range `[-BOUND, BOUND]`.
pub open spec fn sat(v: int) -> int {
    if v > BOUND {
        BOUND as int
    } else if v < -BOUND {
        -BOUND
    } else {
        v
    }
}

/// The quotient of `a` by a positive `b`, rounded toward zero.
pub open spec fn quot(a: int, b: int) -> int
    recommends
        b > 0,
{
    if a >= 0 {
        a / b
    } else {
        -((-a) / b)
    }
}

/// The magnitude of `a`.
pub open spec fn mag(a: int) -> int {
    if a >= 0 {
        a
    } else {
        -a
    }
}

/// The sum of two counts, held within the bounds.
pub open spec fn add_spec(a: int, b: int) -> int {
    sat(a + b)
}

/// The difference of two counts, held within the bounds.
pub open spec fn sub_spec(a: int, b: int) -> int {
    sat(a - b)
}

/// The count with the other sign, held within the bounds.
pub open spec fn neg_spec(a: int) -> int {
    sat(-a)
}

/// The magnitude of a count, held within the bounds.
pub open spec fn abs_spec(a: int) -> int {
    sat(mag(a))
}

/// The product of two reals: the exact product of the counts, scaled back and
/// rounded toward zero.
pub open spec fn mul_spec(a: int, b: int) -> int {
    sat(quot(a * b, ONE as int))
}

/// The quotient of two reals, rounded toward zero. Over zero it is the bound
/// with the sign of `a`, and zero for `a == 0`.
pub open spec fn div_spec(a: int, b: int) -> int {
    if b == 0 {
        if a > 0 {
            BOUND as int
        } else if a < 0 {
            -BOUND
        } else {
            0
        }
    } else if (a >= 0) == (b > 0) {
        sat((mag(a) * ONE) / mag(b))
    } else {
        sat(-((mag(a) * ONE) / mag(b)))
    }
}

/// The largest whole number that is not above `a`, as a real.
pub open spec fn floor_spec(a: int) -> int {
    sat(a - a % (ONE as int))
}

/// The part of `a` above its floor: a value in `[0, ONE)`.
pub open spec fn frac_spec(a: int) -> int {
    a % (ONE as int)
}

/// The whole number nearest to `a`, halves away from zero, as a real.
pub open spec fn round_spec(a: int) -> int {
    if a >= 0 {
        sat(((a + HALF) / (ONE as int)) * ONE)
    } else {
        sat(-(((-a + HALF) / (ONE as int)) * ONE))
    }
}

/// The whole number `n` as a real.
pub open spec fn from_int_spec(n: int) -> int {
    sat(n * ONE)
}

/// The floor of `a` as a plain integer.
pub open spec fn floor_int_spec(a: int) -> int {
    a / (ONE as int)
}

/// The integer part of `a`, rounded toward zero.
pub open spec fn trunc_int_spec(a: int) -> int {
    quot(a, ONE as int)
}

/// The sum of two reals.
pub open spec fn sum(a: Fixed, b: Fixed) -> Fixed {
    add_spec(a as int, b as int) as i64
}

/// The difference of two reals.
pub open spec fn diff(a: Fixed, b: Fixed) -> Fixed {
    sub_spec(a as int, b as int) as i64
}

/// The product of two reals.
pub open spec fn prod(a: Fixed, b: Fixed) -> Fixed {
    mul_spec(a as int, b as int) as i64
}

/// The quotient of two reals.
pub open spec fn ratio(a: Fixed, b: Fixed) -> Fixed {
    div_spec(a as int, b as int) as i64
}

/// The real with the other sign.
pub open spec fn minus(a: Fixed) -> Fixed {
    neg_spec(a as int) as i64
}

/// The magnitude of a real.
pub open spec fn size(a: Fixed) -> Fixed {
    abs_spec(a as int) as i64
}

/// The floor of a real.
pub open spec fn floor_of(a: Fixed) -> Fixed {
    floor_spec(a as int) as i64
}

/// The part of a real above its floor.
pub open spec fn frac_of(a: Fixed) -> Fixed {
    frac_spec(a as int) as i64
}

/// The whole number nearest to a real.
pub open spec fn round_of(a: Fixed) -> Fixed {
    round_spec(a as int) as i64
}

fn narrow(v: i128) -> (r: i64)
    ensures
        r == sat(v as int),
{
    if v > BOUND as i128 {
        BOUND
    } else if v < -(BOUND as i128) {
        -BOUND
    } else {
        v as i64
    }
}

/// The sum of two reals.
pub fn fx_add(a: Fixed, b: Fixed) -> (r: Fixed)
    ensures
        r == sum(a, b),
        r == add_spec(a as int, b as int),
{
    narrow(a as i128 + b as i128)
}

/// The difference of two reals.
pub fn fx_sub(a: Fixed, b: Fixed) -> (r: Fixed)
    ensures
        r == diff(a, b),
        r == sub_spec(a as int, b as int),
{
    narrow(a as i128 - b as i128)
}

/// The real with the other sign.
pub fn fx_neg(a: Fixed) -> (r: Fixed)
    ensures
        r == minus(a),
        r == neg_spec(a as int),
{
    narrow(-(a as i128))
}

/// The magnitude of a real.
pub fn fx_abs(a: Fixed) -> (r: Fixed)
    ensures
        r == size(a),
        r == abs_spec(a as int),
        r >= 0,
{
    if a >= 0 {
        a
    } else {
        narrow(-(a as i128))
    }
}

/// The product of two reals, rounded toward zero.
pub fn fx_mul(a: Fixed, b: Fixed) -> (r: Fixed)
    ensures
        r == prod(a, b),
        r == mul_spec(a as int, b as int),
{
    let wide_a: i128 = a as i128;
    let wide_b: i128 = b as i128;
    assert(-0x4000_0000_0000_0000_0000_0000_0000_0000 <= wide_a * wide_b
        <= 0x4000_0000_0000_0000_0000_0000_0000_0000) by (nonlinear_arith)
        requires
            -0x8000_0000_0000_0000 <= wide_a <= 0x8000_0000_0000_0000,
            -0x8000_0000_0000_0000 <= wide_b <= 0x8000_0000_0000_0000,
    ;
    let product: i128 = wide_a * wide_b;
    narrow(product / (ONE as i128))
}

/// The quotient of two reals, rounded toward zero; over zero, the bound
/// with the sign of `a`.
pub fn fx_div(a: Fixed, b: Fixed) -> (r: Fixed)
    ensures
        r == ratio(a, b),
        r == div_spec(a as int, b as int),
{
    if b == 0 {
        if a > 0 {
            BOUND
        } else if a < 0 {
            -BOUND
        } else {
            0
        }
    } else {
        let num: i128 = if a >= 0 { a as i128 } else { -(a as i128) };
        let den: i128 = if b >= 0 { b as i128 } else { -(b as i128) };
        let q: i128 = (num * 1_000_000) / den;
        if (a >= 0) == (b > 0) {
            narrow(q)
        } else {
            narrow(-q)
        }
    }
}

/// The largest whole number that is not above `a`, as a real.
pub fn fx_floor(a: Fixed) -> (r: Fixed)
    ensures
        r == floor_of(a),
        r == floor_spec(a as int),
        r <= a || r == -BOUND,
{
    let rem: i64 = a % ONE;
    let below: i64 = if rem < 0 { rem + ONE } else { rem };
    assert(below == (a as int) % (ONE as int));
    narrow(a as i128 - below as i128)
}

/// The part of `a` above its floor.
pub fn fx_frac(a: Fixed) -> (r: Fixed)
    ensures
        r == frac_of(a),
        r == frac_spec(a as int),
        0 <= r < ONE,
{
    let rem: i64 = a % ONE;
    if rem < 0 {
        rem + ONE
    } else {
        rem
    }
}

/// The whole number nearest to `a`, halves away from zero, as a real.
pub fn fx_round(a: Fixed) -> (r: Fixed)
    ensures
        r == round_of(a),
        r == round_spec(a as int),
{
    let m: i128 = if a >= 0 { a as i128 } else { -(a as i128) };
    let whole: i128 = (m + HALF as i128) / (ONE as i128);
    if a > 0 {
        narrow(whole * 1_000_000)
    } else if a < 0 {
        narrow(-(whole * 1_000_000))
    } else {
        0
    }
}

/// The whole number `n` as a real.
pub fn fx_from_int(n: i64) -> (r: Fixed)
    ensures
        r == from_int_spec(n as int),
{
    narrow(n as i128 * 1_000_000)
}

/// The floor of `a` as a plain integer.
pub fn fx_floor_int(a: Fixed) -> (r: i64)
    ensures
        r == floor_int_spec(a as int),
{
    let q: i64 = a / ONE;
    let rem: i64 = a % ONE;
    if rem < 0 {
        q - 1
    } else {
        q
    }
}

/// The integer part of `a`, rounded toward zero.
pub fn fx_trunc_int(a: Fixed) -> (r: i64)
    ensures
        r == trunc_int_spec(a as int),
{
    a / ONE
}

} // verus!
