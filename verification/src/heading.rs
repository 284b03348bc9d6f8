//! Headings in whole degrees, and the view of the player that a camera sees.
use vstd::prelude::*;
use crate::fixed::{Fixed, quot, prod, ratio, size, round_of, trunc_int_spec, fx_abs, fx_div, fx_mul,
    fx_round, fx_trunc_int};
use crate::vectors::Vector2f;

verus! {

/// The number of degrees in one radian.
pub const DEGREES_PER_RADIAN: Fixed = 57_295_780;

/// The tangents of one half, one and a half, and so on up to eighty-nine and
/// a half degrees.
pub const TANGENTS: [i64; 90] = [
    8_727, 26_186, 43_661, 61_163, 78_702, 96_289,
    113_936, 131_652, 149_451, 167_343, 185_339, 203_452,
    221_695, 240_079, 258_618, 277_325, 296_213, 315_299,
    334_595, 354_119, 373_885, 393_910, 414_214, 434_812,
    455_726, 476_976, 498_582, 520_567, 542_956, 565_773,
    589_045, 612_801, 637_070, 661_886, 687_281, 713_293,
    739_961, 767_327, 795_436, 824_336, 854_081, 884_725,
    916_331, 948_965, 982_697, 1_017_607, 1_053_780, 1_091_309,
    1_130_294, 1_170_850, 1_213_097, 1_257_172, 1_303_225, 1_351_422,
    1_401_948, 1_455_009, 1_510_835, 1_569_686, 1_631_852, 1_697_663,
    1_767_494, 1_841_771, 1_920_982, 2_005_690, 2_096_544, 2_194_300,
    2_299_843, 2_414_214, 2_538_648, 2_674_621, 2_823_913, 2_988_685,
    3_171_595, 3_375_943, 3_605_884, 3_866_713, 4_165_300, 4_510_709,
    4_915_157, 5_395_517, 5_975_764, 6_691_156, 7_595_754, 8_776_887,
    10_385_397, 12_706_205, 16_349_855, 22_903_766, 38_188_459, 114_588_650,
];

/// How many of the first `n` tangents are not above `t`.
pub open spec fn tangents_up_to(t: Fixed, n: int) -> int
    decreases n,
{
    if n <= 0 {
        0
    } else {
        tangents_up_to(t, n - 1) + if TANGENTS@[n - 1] <= t {
            1int
        } else {
            0int
        }
    }
}

/// The angle in whole degrees, from -90 to 90, whose tangent is `t`: the
/// nearest whole number of degrees, halves away from zero.
pub open spec fn arc_degrees(t: Fixed) -> int {
    if t >= 0 {
        tangents_up_to(t, 90)
    } else {
        -tangents_up_to(size(t), 90)
    }
}

/// The angle in whole degrees, from -90 to 90, whose tangent is `t`.
pub fn atan_degrees(t: Fixed) -> (r: i64)
    ensures
        r == arc_degrees(t),
        -90 <= r <= 90,
{
    let m: Fixed = fx_abs(t);
    let mut count: i64 = 0;
    let mut i: usize = 0;
    while i < 90
        invariant
            i <= 90,
            count == tangents_up_to(m, i as int),
            0 <= count <= i,
        decreases 90 - i,
    {
        if TANGENTS[i] <= m {
            count += 1;
        }
        i += 1;
    }
    if t >= 0 {
        count
    } else {
        -count
    }
}

/// The number of eighths of a turn nearest to `degrees`, halves away from
/// zero.
pub open spec fn eighths(degrees: int) -> int {
    if degrees >= 0 {
        (2 * degrees + 45) / 90
    } else {
        -((-2 * degrees + 45) / 90)
    }
}

fn to_eighths(degrees: i64) -> (r: i64)
    requires
        -10_000_000_000 <= degrees <= 10_000_000_000,
    ensures
        r == eighths(degrees as int),
{
    if degrees >= 0 {
        (2 * degrees + 45) / 90
    } else {
        -((-2 * degrees + 45) / 90)
    }
}

/// What is left of `a` over a positive `b`, with the sign of `a`.
pub open spec fn remainder(a: int, b: int) -> int {
    a - b * quot(a, b)
}

/// The angle `rotation`, given in radians, in whole degrees from 0 to 359.
pub open spec fn rotation_degrees(rotation: Fixed) -> int {
    let r = remainder(trunc_int_spec(round_of(prod(rotation, DEGREES_PER_RADIAN)) as int), 360);
    if r < 0 {
        r + 360
    } else {
        r
    }
}

/// The heading of the player in whole degrees, as the pictures of the
/// player count it: the angle whose tangent is the slope of `dir`, with half
/// a turn added for every heading along the first axis, and a whole turn for
/// one against the first and along the second.
pub open spec fn player_degrees(dir: Vector2f) -> int {
    let base = arc_degrees(ratio(dir.y, dir.x));
    if dir.x > 0 {
        180 + base
    } else if dir.x < 0 && dir.y > 0 {
        360 + base
    } else {
        base
    }
}

/// Which of the eight views of the player a camera sees, from 0 to 7.
///
/// `rotation` is the angle in radians by which portals have turned the
/// camera, `dir` the heading of the player and `shift_degree` the heading of
/// the face of the first portal. With `r` and `p` the eighths of a turn
/// nearest to the camera's turn and to the player's heading less the shift,
/// the view is `-(4 + r - p)` modulo 8.
pub open spec fn octant_spec(rotation: Fixed, dir: Vector2f, shift_degree: u32) -> int {
    let v = remainder(
        -(4 + eighths(rotation_degrees(rotation)) - eighths(player_degrees(dir) - shift_degree)),
        8,
    );
    if v < 0 {
        v + 8
    } else {
        v
    }
}

/// Which of the eight views of the player a camera sees, from 0 to 7.
pub fn octant(rotation: Fixed, dir: &Vector2f, shift_degree: u32) -> (r: u64)
    ensures
        r == octant_spec(rotation, *dir, shift_degree),
        r < 8,
{
    let turned: i64 = fx_trunc_int(fx_round(fx_mul(rotation, DEGREES_PER_RADIAN)));
    let mut rotation_degree: i64 = turned % 360;
    assert(rotation_degree == remainder(turned as int, 360));
    if rotation_degree < 0 {
        rotation_degree = 360 + rotation_degree;
    }
    let mut player_degree: i64 = atan_degrees(fx_div(dir.y, dir.x));

    if dir.x > 0 {
        player_degree = 180 + player_degree;
    } else if dir.x < 0 && dir.y > 0 {
        player_degree = 360 + player_degree;
    }
    let inner: i64 = -(4 + to_eighths(rotation_degree) - to_eighths(
        player_degree - shift_degree as i64,
    ));
    let mut value: i64 = inner % 8;
    assert(value == remainder(inner as int, 8));
    if value < 0 {
        value = 8 + value;
    }
    value as u64
}

} // verus!
