//! Sine and cosine of a real angle.
//!
//! An angle is split into whole quarter turns and a rest below one quarter
//! turn. The rest goes through a polynomial; the quarter turns only swap and
//! negate. So a rotation by a whole number of quarter turns is exact.
use vstd::prelude::*;
use crate::fixed::{Fixed, ONE, QUARTER_TURN, sub_spec, mul_spec, div_spec, fx_sub, fx_mul, fx_div};

verus! {

/// The number of whole quarter turns in `angle`, rounded down.
pub open spec fn quarter_turns(angle: int) -> int {
    angle / (QUARTER_TURN as int)
}

/// What is left of `angle` above its whole quarter turns: a value in
/// `[0, QUARTER_TURN)`.
pub open spec fn turn_rest(angle: int) -> int {
    angle % (QUARTER_TURN as int)
}

/// `v` held within `[0, ONE]`.
pub open spec fn unit_spec(v: int) -> int {
    if v < 0 {
        0
    } else if v > ONE {
        ONE as int
    } else {
        v
    }
}

/// One step of a power series written as nested factors:
/// `1 - square * inner / divisor`.
pub open spec fn series_step(square: int, inner: int, divisor: int) -> int {
    sub_spec(ONE as int, div_spec(mul_spec(square, inner), divisor * ONE))
}

/// The sine of a rest `r` in `[0, QUARTER_TURN)`: the series up to the
/// eleventh power, held within `[0, ONE]`.
pub open spec fn sin_rest(r: int) -> int {
    let q = mul_spec(r, r);
    let t5 = series_step(q, ONE as int, 110);
    let t4 = series_step(q, t5, 72);
    let t3 = series_step(q, t4, 42);
    let t2 = series_step(q, t3, 20);
    let t1 = series_step(q, t2, 6);
    unit_spec(mul_spec(r, t1))
}

/// The cosine of a rest `r` in `[0, QUARTER_TURN)`: the series up to the
/// twelfth power, held within `[0, ONE]`.
pub open spec fn cos_rest(r: int) -> int {
    let q = mul_spec(r, r);
    let t6 = series_step(q, ONE as int, 132);
    let t5 = series_step(q, t6, 90);
    let t4 = series_step(q, t5, 56);
    let t3 = series_step(q, t4, 30);
    let t2 = series_step(q, t3, 12);
    let t1 = series_step(q, t2, 2);
    unit_spec(t1)
}

/// The sine of `angle`, in radians.
pub open spec fn sin_spec(angle: int) -> int {
    let r = turn_rest(angle);
    let k = quarter_turns(angle) % 4;
    if k == 0 {
        sin_rest(r)
    } else if k == 1 {
        cos_rest(r)
    } else if k == 2 {
        -sin_rest(r)
    } else {
        -cos_rest(r)
    }
}

/// The cosine of `angle`, in radians.
pub open spec fn cos_spec(angle: int) -> int {
    let r = turn_rest(angle);
    let k = quarter_turns(angle) % 4;
    if k == 0 {
        cos_rest(r)
    } else if k == 1 {
        -sin_rest(r)
    } else if k == 2 {
        -cos_rest(r)
    } else {
        sin_rest(r)
    }
}

fn unit(v: Fixed) -> (r: Fixed)
    ensures
        r == unit_spec(v as int),
        0 <= r <= ONE,
{
    if v < 0 {
        0
    } else if v > ONE {
        ONE
    } else {
        v
    }
}

fn step(square: Fixed, inner: Fixed, divisor: i64) -> (r: Fixed)
    requires
        0 < divisor <= 1000,
    ensures
        r == series_step(square as int, inner as int, divisor as int),
{
    fx_sub(ONE, fx_div(fx_mul(square, inner), divisor * 1_000_000))
}

fn sin_of_rest(r: Fixed) -> (s: Fixed)
    ensures
        s == sin_rest(r as int),
        0 <= s <= ONE,
{
    let q: Fixed = fx_mul(r, r);
    let t5: Fixed = step(q, ONE, 110);
    let t4: Fixed = step(q, t5, 72);
    let t3: Fixed = step(q, t4, 42);
    let t2: Fixed = step(q, t3, 20);
    let t1: Fixed = step(q, t2, 6);
    unit(fx_mul(r, t1))
}

fn cos_of_rest(r: Fixed) -> (c: Fixed)
    ensures
        c == cos_rest(r as int),
        0 <= c <= ONE,
{
    let q: Fixed = fx_mul(r, r);
    let t6: Fixed = step(q, ONE, 132);
    let t5: Fixed = step(q, t6, 90);
    let t4: Fixed = step(q, t5, 56);
    let t3: Fixed = step(q, t4, 30);
    let t2: Fixed = step(q, t3, 12);
    let t1: Fixed = step(q, t2, 2);
    unit(t1)
}

/// The whole quarter turns of `angle` modulo four, and its rest.
fn split_angle(angle: Fixed) -> (r: (i64, Fixed))
    ensures
        r.0 == quarter_turns(angle as int) % 4,
        r.1 == turn_rest(angle as int),
        0 <= r.0 < 4,
        0 <= r.1 < QUARTER_TURN,
{
    let q: i64 = angle / QUARTER_TURN;
    let rem: i64 = angle % QUARTER_TURN;
    let (turns, rest): (i64, i64) = if rem < 0 {
        (q - 1, rem + QUARTER_TURN)
    } else {
        (q, rem)
    };
    let m: i64 = turns % 4;
    let quadrant: i64 = if m < 0 { m + 4 } else { m };
    (quadrant, rest)
}

/// The sine of `angle`, in radians. It lies within `[-ONE, ONE]`, and is
/// exact at every whole number of quarter turns.
pub fn fx_sin(angle: Fixed) -> (r: Fixed)
    ensures
        r == sin_spec(angle as int),
        -ONE <= r <= ONE,
{
    let (k, rest) = split_angle(angle);
    if k == 0 {
        sin_of_rest(rest)
    } else if k == 1 {
        cos_of_rest(rest)
    } else if k == 2 {
        -sin_of_rest(rest)
    } else {
        -cos_of_rest(rest)
    }
}

/// The cosine of `angle`, in radians. It lies within `[-ONE, ONE]`, and is
/// exact at every whole number of quarter turns.
pub fn fx_cos(angle: Fixed) -> (r: Fixed)
    ensures
        r == cos_spec(angle as int),
        -ONE <= r <= ONE,
{
    let (k, rest) = split_angle(angle);
    if k == 0 {
        cos_of_rest(rest)
    } else if k == 1 {
        -sin_of_rest(rest)
    } else if k == 2 {
        -cos_of_rest(rest)
    } else {
        sin_of_rest(rest)
    }
}

/// At a whole number `k` of quarter turns the sine and the cosine are the
/// exact values 0, 1 and -1 of the quadrant.
pub proof fn lemma_quarter_turns_exact(k: int)
    ensures
        sin_spec(k * QUARTER_TURN) == (if k % 4 == 1 { ONE as int } else if k % 4 == 3 { -ONE } else { 0 }),
        cos_spec(k * QUARTER_TURN) == (if k % 4 == 0 { ONE as int } else if k % 4 == 2 { -ONE } else { 0 }),
{
    let a = k * QUARTER_TURN;
    assert(a % (QUARTER_TURN as int) == 0 && a / (QUARTER_TURN as int) == k) by (nonlinear_arith)
        requires
            a == k * QUARTER_TURN,
            QUARTER_TURN == 1_570_796,
    ;
    lemma_cos_rest_zero();
}

proof fn lemma_cos_rest_zero()
    ensures
        cos_rest(0) == ONE,
{
    assert(series_step(0, ONE as int, 132) == ONE);
    assert(series_step(0, ONE as int, 90) == ONE);
    assert(series_step(0, ONE as int, 56) == ONE);
    assert(series_step(0, ONE as int, 30) == ONE);
    assert(series_step(0, ONE as int, 12) == ONE);
    assert(series_step(0, ONE as int, 2) == ONE);
}

} // verus!
