//! Vectors in the plane and in space.
use vstd::prelude::*;
use vstd::std_specs::cmp::PartialOrdIs;
use vstd::std_specs::cmp::PartialOrdSpec;
use crate::fixed::{Fixed, add_spec, sub_spec, mul_spec, fx_add, fx_sub, fx_mul};
use crate::fixed::{BOUND, ONE, QUARTER_TURN};
use crate::trig::{sin_spec, cos_spec, fx_sin, fx_cos, lemma_quarter_turns_exact};

verus! {

/// A pair of coordinates of any type.
#[derive(Debug, Clone, Copy, PartialEq, Eq)]
pub struct Vector2<T> {
    /// The first coordinate.
    pub x: T,
    /// The second coordinate.
    pub y: T,
}

/// A [`Vector2`] of reals.
pub type Vector2f = Vector2<Fixed>;

/// A [`Vector2`] of whole numbers.
pub type Vector2i = Vector2<i32>;

/// `v` held between `lo` and `hi`: first raised to `lo` where it is below,
/// then lowered to `hi` where it is above.
pub open spec fn held_between<T: PartialOrd>(v: T, lo: T, hi: T) -> T {
    let raised = if v.is_lt(&lo) {
        lo
    } else {
        v
    };
    if raised.is_gt(&hi) {
        hi
    } else {
        raised
    }
}

impl<T> Vector2<T> {
    /// The vector with the coordinates `x` and `y`.
    pub fn new(x: T, y: T) -> (r: Self)
        ensures
            r.x == x,
            r.y == y,
    {
        Self { x, y }
    }
}

impl<T: PartialOrd + Copy + Sized> Vector2<T> {
    /// Holds each coordinate within its own interval.
    ///
    /// Neither interval may be empty or unordered.
    pub fn clamp(&self, x_min: T, x_max: T, y_min: T, y_max: T) -> (r: Self)
        requires
            T::obeys_partial_cmp_spec(),
            x_min.is_le(&x_max),
            y_min.is_le(&y_max),
        ensures
            r.x == held_between(self.x, x_min, x_max),
            r.y == held_between(self.y, y_min, y_max),
    {
        let mut x = self.x;
        let mut y = self.y;

        if x < x_min {
            x = x_min;
        }
        if x > x_max {
            x = x_max;
        }
        if y < y_min {
            y = y_min;
        }
        if y > y_max {
            y = y_max;
        }
        Self { x, y }
    }
}

impl Vector2<Fixed> {
    /// The null vector.
    pub fn zero() -> (r: Vector2f)
        ensures
            r == (Vector2f { x: 0, y: 0 }),
    {
        Vector2 { x: 0, y: 0 }
    }

    /// The vector turned by `angle` radians about the origin.
    pub open spec fn rotated(self, angle: int) -> Vector2f {
        let c = cos_spec(angle);
        let s = sin_spec(angle);
        Vector2 {
            x: sub_spec(mul_spec(self.x as int, c), mul_spec(self.y as int, s)) as i64,
            y: add_spec(mul_spec(self.x as int, s), mul_spec(self.y as int, c)) as i64,
        }
    }

    /// Turns the vector by `new_rotation` radians about the origin.
    pub fn rotate(&mut self, new_rotation: Fixed)
        ensures
            *final(self) == old(self).rotated(new_rotation as int),
    {
        let c: Fixed = fx_cos(new_rotation);
        let s: Fixed = fx_sin(new_rotation);
        let old_x: Fixed = self.x;

        self.x = fx_sub(fx_mul(self.x, c), fx_mul(self.y, s));
        self.y = fx_add(fx_mul(old_x, s), fx_mul(self.y, c));
    }
}

/// The vector turned by `k` quarter turns, by swapping and negating its
/// coordinates.
pub open spec fn quarter_turned(v: Vector2f, k: int) -> Vector2f {
    if k % 4 == 0 {
        v
    } else if k % 4 == 1 {
        Vector2 { x: (-v.y) as i64, y: v.x }
    } else if k % 4 == 2 {
        Vector2 { x: (-v.x) as i64, y: (-v.y) as i64 }
    } else {
        Vector2 { x: v.y, y: (-v.x) as i64 }
    }
}

/// A turn by a whole number of quarter turns is exact: it only swaps and
/// negates the coordinates.
pub proof fn lemma_quarter_turn(v: Vector2f, k: int)
    requires
        -BOUND <= v.x,
        -BOUND <= v.y,
    ensures
        v.rotated(k * QUARTER_TURN) == quarter_turned(v, k),
{
    lemma_quarter_turns_exact(k);
    assert(v.x * ONE == v.x * 1_000_000 && v.y * ONE == v.y * 1_000_000);
    assert((-v.x * 1_000_000) / 1_000_000 == -v.x);
    assert((-v.y * 1_000_000) / 1_000_000 == -v.y);
}

/// Two turns by quarter turns that add up to whole turns lead back to
/// where one started.
pub proof fn lemma_turns_cancel(v: Vector2f, j: int, k: int)
    requires
        -BOUND <= v.x,
        -BOUND <= v.y,
        (j + k) % 4 == 0,
    ensures
        v.rotated(j * QUARTER_TURN).rotated(k * QUARTER_TURN) == v,
{
    lemma_quarter_turn(v, j);
    lemma_quarter_turn(quarter_turned(v, j), k);
}

/// A point or a direction in space, in reals.
#[derive(Debug, Clone, Copy, PartialEq, Eq, Structural)]
pub struct Vector3f {
    pub x: Fixed,
    pub y: Fixed,
    pub z: Fixed,
}

impl Vector3f {
    /// The vector with the coordinates `x`, `y` and `z`.
    pub fn new(x: Fixed, y: Fixed, z: Fixed) -> (r: Vector3f)
        ensures
            r.x == x,
            r.y == y,
            r.z == z,
    {
        Vector3f { x, y, z }
    }

    /// The origin.
    pub fn zero() -> (r: Vector3f)
        ensures
            r == (Vector3f { x: 0, y: 0, z: 0 }),
    {
        Vector3f { x: 0, y: 0, z: 0 }
    }
}

} // verus!
