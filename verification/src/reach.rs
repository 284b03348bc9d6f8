//! How long a walk can last: the steps that a ray is given are never used
//! up.
use vstd::prelude::*;
use crate::cell::Cell;
use crate::direction::Direction;
use crate::fixed::{Fixed, ONE, floor_int_spec, round_of, diff, prod};
use crate::map::{WorldMap, GRID};
use crate::rayobject::{Outcome, Passage, Ray, walk_budget};
use crate::sight::FAR;
use crate::vectors::Vector3f;

verus! {

/// The most floors of a map for what is said here.
pub const MAX_FLOORS: usize = 1_000_000;

/// The number of cells that lie within range of a place along one axis.
pub const IN_RANGE: i64 = 61;

/// Whether `v` is a whole number of ones.
pub open spec fn whole(v: Fixed) -> bool {
    (v as int) % (ONE as int) == 0
}

/// The most steps out of play after which a ray still counts as steady.
pub const SLACK: i64 = 1_000;

/// Whether a ray steps from cell to cell: it is in a cell with whole
/// coordinates, at most [`SLACK`] cells further than [`FAR`] from the
/// origin of the grid, its own origin is within [`FAR`], and its steps are
/// one cell long.
pub open spec fn steady(ray: Ray) -> bool {
    &&& whole(ray.pos.x) && whole(ray.pos.y) && whole(ray.pos.z)
    &&& -FAR - SLACK * ONE <= ray.pos.x <= FAR + SLACK * ONE
    &&& -FAR - SLACK * ONE <= ray.pos.y <= FAR + SLACK * ONE
    &&& -FAR - SLACK * ONE <= ray.pos.z <= FAR + SLACK * ONE
    &&& -FAR <= ray.origin.x <= FAR
    &&& -FAR <= ray.origin.y <= FAR
    &&& (ray.step.x == ONE || ray.step.x == -ONE)
    &&& (ray.step.y == ONE || ray.step.y == -ONE)
    &&& (ray.step.z == ONE || ray.step.z == -ONE)
}

/// Whether the coordinate `pos` of a cell lies on the grid or within range
/// of `origin`.
pub open spec fn in_play(pos: Fixed, origin: Fixed) -> bool {
    (0 <= pos < GRID * ONE) || (-30 * ONE <= pos - origin <= 30 * ONE)
}

/// How many of the cells from `pos` on, in the direction of `step`, lie
/// between `lo` and `hi`, counted in whole cells: at most `all`.
pub open spec fn cells_left(pos: int, step: int, lo: int, hi: int, all: int) -> int {
    if step > 0 {
        if pos > hi {
            0
        } else if pos < lo {
            all
        } else {
            (hi - pos) / (ONE as int) + 1
        }
    } else {
        if pos < lo {
            0
        } else if pos > hi {
            all
        } else {
            (pos - lo) / (ONE as int) + 1
        }
    }
}

/// How many more steps a ray can take along a level axis: one for each
/// cell ahead that lies on the grid, and one for each that lies within
/// range of the origin.
pub open spec fn level_left(pos: Fixed, origin: Fixed, step: Fixed) -> int {
    cells_left(pos as int, step as int, 0, GRID * ONE - 1, GRID as int) + cells_left(
        pos as int,
        step as int,
        origin - 30 * ONE,
        origin + 30 * ONE,
        IN_RANGE as int,
    )
}

/// How many more steps a ray can take from floor to floor: one for each
/// floor of the map ahead.
pub open spec fn floors_left(pos: Fixed, step: Fixed, floors: usize) -> int {
    cells_left(pos as int, step as int, 0, floors * ONE - 1, floors as int)
}

/// How many more steps a ray can take in `map` before its walk must end.
pub open spec fn steps_left(ray: Ray, map: WorldMap) -> int {
    level_left(ray.pos.x, ray.origin.x, ray.step.x) + level_left(
        ray.pos.y,
        ray.origin.y,
        ray.step.y,
    ) + floors_left(ray.pos.z, ray.step.z, map.floors)
}

/// The count of cells left is never negative and never more than all, and
/// a step from a cell that counts takes one off.
proof fn lemma_cells_left(pos: int, step: int, lo: int, hi: int, all: int)
    requires
        pos % (ONE as int) == 0,
        step == ONE || step == -ONE,
        lo <= hi,
        (hi - lo) / (ONE as int) + 1 <= all,
    ensures
        0 <= cells_left(pos, step, lo, hi, all) <= all,
        cells_left(pos + step, step, lo, hi, all) <= cells_left(pos, step, lo, hi, all),
        lo <= pos <= hi ==> cells_left(pos + step, step, lo, hi, all) <= cells_left(
            pos,
            step,
            lo,
            hi,
            all,
        ) - 1,
{
    if step > 0 && lo <= pos <= hi {
        assert((hi - pos) / 1_000_000 <= (hi - lo) / 1_000_000);
    }
}

/// A square that is not above the square of the range belongs to a number
/// within range.
proof fn lemma_within_range(d: Fixed)
    requires
        -3 * FAR <= d <= 3 * FAR,
        prod(d, d) <= 900 * ONE,
    ensures
        -30 * ONE <= d <= 30 * ONE,
{
    if d > 30 * ONE {
        assert(d * d >= 30_000_001 * 30_000_001) by (nonlinear_arith)
            requires
                d >= 30_000_001,
        ;
        assert((d * d) / 1_000_000 >= 900_000_060) by (nonlinear_arith)
            requires
                d * d >= 900_000_060_000_001,
        ;
        assert(d * d <= 9_000_000_000_000_000_000_000_000) by (nonlinear_arith)
            requires
                0 <= d <= 3_000_000_000_000,
        ;
    } else if d < -30 * ONE {
        assert(d * d >= 30_000_001 * 30_000_001) by (nonlinear_arith)
            requires
                d <= -30_000_001,
        ;
        assert((d * d) / 1_000_000 >= 900_000_060) by (nonlinear_arith)
            requires
                d * d >= 900_000_060_000_001,
        ;
        assert(d * d <= 9_000_000_000_000_000_000_000_000) by (nonlinear_arith)
            requires
                -3_000_000_000_000 <= d <= 0,
        ;
    }
}

/// A square is not negative.
proof fn lemma_square_not_negative(d: Fixed)
    requires
        -3 * FAR <= d <= 3 * FAR,
    ensures
        0 <= prod(d, d) <= 9_000_000_000_000_000_000,
{
    assert(0 <= d * d <= 9_000_000_000_000_000_000_000_000) by (nonlinear_arith)
        requires
            -3_000_000_000_000 <= d <= 3_000_000_000_000,
    ;
    assert(0 <= (d * d) / 1_000_000 <= 9_000_000_000_000_000_000) by (nonlinear_arith)
        requires
            0 <= d * d <= 9_000_000_000_000_000_000_000_000,
    ;
}

/// A walk goes on only from a cell on the grid or within range, on a floor
/// of the map.
proof fn lemma_on_means_in_play(ray: Ray, map: WorldMap, passage: Passage)
    requires
        map.wf(),
        steady(ray),
        ray.look(map, passage) is On,
    ensures
        in_play(ray.pos.x, ray.origin.x),
        in_play(ray.pos.y, ray.origin.y),
        0 <= ray.pos.z < map.floors * ONE,
{
    reveal(Ray::look);
    let z = floor_int_spec(ray.pos.z as int);
    if map.at_point(ray.pos) == Cell::Empty {
        let dx = diff(ray.pos.x, ray.origin.x);
        let dy = diff(ray.pos.y, ray.origin.y);
        lemma_square_not_negative(dx);
        lemma_square_not_negative(dy);
        lemma_within_range(dx);
        lemma_within_range(dy);
    }
    assert(z * ONE < map.floors * ONE) by (nonlinear_arith)
        requires
            z < map.floors,
            ONE == 1_000_000,
    ;
}

/// A step from anywhere leaves a ray with no more steps to take than it
/// had, and in a cell with whole coordinates one cell further.
pub proof fn lemma_step_never_adds(ray: Ray, map: WorldMap)
    requires
        map.wf(),
        map.floors <= MAX_FLOORS,
        steady(ray),
        -FAR - (SLACK - 1) * ONE <= ray.pos.x <= FAR + (SLACK - 1) * ONE,
        -FAR - (SLACK - 1) * ONE <= ray.pos.y <= FAR + (SLACK - 1) * ONE,
        -FAR - (SLACK - 1) * ONE <= ray.pos.z <= FAR + (SLACK - 1) * ONE,
    ensures
        steady(ray.grown()),
        0 <= steps_left(ray.grown(), map) <= steps_left(ray, map),
        ray.pos.x - ONE <= ray.grown().pos.x <= ray.pos.x + ONE,
        ray.pos.y - ONE <= ray.grown().pos.y <= ray.pos.y + ONE,
        ray.pos.z - ONE <= ray.grown().pos.z <= ray.pos.z + ONE,
{
    let next = ray.grown();
    let top = map.floors * ONE - 1;
    if map.floors >= 1 {
        assert((top - 0) / (ONE as int) + 1 <= map.floors) by (nonlinear_arith)
            requires
                top == map.floors * ONE - 1,
                ONE == 1_000_000,
                map.floors >= 1,
        ;
        lemma_cells_left(ray.pos.z as int, ray.step.z as int, 0, top, map.floors as int);
        lemma_cells_left(next.pos.z as int, ray.step.z as int, 0, top, map.floors as int);
    }
    lemma_cells_left(ray.pos.x as int, ray.step.x as int, 0, GRID * ONE - 1, GRID as int);
    lemma_cells_left(
        ray.pos.x as int,
        ray.step.x as int,
        ray.origin.x - 30 * ONE,
        ray.origin.x + 30 * ONE,
        IN_RANGE as int,
    );
    lemma_cells_left(ray.pos.y as int, ray.step.y as int, 0, GRID * ONE - 1, GRID as int);
    lemma_cells_left(
        ray.pos.y as int,
        ray.step.y as int,
        ray.origin.y - 30 * ONE,
        ray.origin.y + 30 * ONE,
        IN_RANGE as int,
    );
    lemma_cells_left(next.pos.x as int, ray.step.x as int, 0, GRID * ONE - 1, GRID as int);
    lemma_cells_left(
        next.pos.x as int,
        ray.step.x as int,
        ray.origin.x - 30 * ONE,
        ray.origin.x + 30 * ONE,
        IN_RANGE as int,
    );
    lemma_cells_left(next.pos.y as int, ray.step.y as int, 0, GRID * ONE - 1, GRID as int);
    lemma_cells_left(
        next.pos.y as int,
        ray.step.y as int,
        ray.origin.y - 30 * ONE,
        ray.origin.y + 30 * ONE,
        IN_RANGE as int,
    );
}

/// A step from a cell in play leaves the ray steady, no further out than
/// play reaches, and with a step less to take.
proof fn lemma_step_counts(ray: Ray, map: WorldMap)
    requires
        map.wf(),
        map.floors <= MAX_FLOORS,
        steady(ray),
        in_play(ray.pos.x, ray.origin.x),
        in_play(ray.pos.y, ray.origin.y),
        0 <= ray.pos.z < map.floors * ONE,
    ensures
        steady(ray.grown()),
        0 <= steps_left(ray.grown(), map) <= steps_left(ray, map) - 1,
{
    let next = ray.grown();
    let top = map.floors * ONE - 1;
    assert((top - 0) / (ONE as int) + 1 <= map.floors) by (nonlinear_arith)
        requires
            top == map.floors * ONE - 1,
            ONE == 1_000_000,
            map.floors >= 1,
    ;
    lemma_cells_left(ray.pos.x as int, ray.step.x as int, 0, GRID * ONE - 1, GRID as int);
    lemma_cells_left(
        ray.pos.x as int,
        ray.step.x as int,
        ray.origin.x - 30 * ONE,
        ray.origin.x + 30 * ONE,
        IN_RANGE as int,
    );
    lemma_cells_left(ray.pos.y as int, ray.step.y as int, 0, GRID * ONE - 1, GRID as int);
    lemma_cells_left(
        ray.pos.y as int,
        ray.step.y as int,
        ray.origin.y - 30 * ONE,
        ray.origin.y + 30 * ONE,
        IN_RANGE as int,
    );
    lemma_cells_left(ray.pos.z as int, ray.step.z as int, 0, top, map.floors as int);
    lemma_cells_left(next.pos.x as int, ray.step.x as int, 0, GRID * ONE - 1, GRID as int);
    lemma_cells_left(
        next.pos.x as int,
        ray.step.x as int,
        ray.origin.x - 30 * ONE,
        ray.origin.x + 30 * ONE,
        IN_RANGE as int,
    );
    lemma_cells_left(next.pos.y as int, ray.step.y as int, 0, GRID * ONE - 1, GRID as int);
    lemma_cells_left(
        next.pos.y as int,
        ray.step.y as int,
        ray.origin.y - 30 * ONE,
        ray.origin.y + 30 * ONE,
        IN_RANGE as int,
    );
    lemma_cells_left(next.pos.z as int, ray.step.z as int, 0, top, map.floors as int);
}

/// With more steps than a ray can take, one step more changes nothing.
pub proof fn lemma_one_more_step(ray: Ray, map: WorldMap, passage: Passage, budget: nat)
    requires
        map.wf(),
        map.floors <= MAX_FLOORS,
        steady(ray),
        budget > steps_left(ray, map),
        budget >= 1,
    ensures
        ray.walk(map, passage, budget) == ray.walk(map, passage, budget + 1),
    decreases budget,
{
    match ray.look(map, passage) {
        Outcome::End(hit) => {},
        Outcome::On(carried) => {
            lemma_on_means_in_play(ray, map, passage);
            lemma_step_counts(ray, map);
            lemma_one_more_step(ray.grown(), map, carried, (budget - 1) as nat);
        },
    }
}

/// A steady ray with more steps than it can take is not cut off: with any
/// number of steps more its walk ends in the same cell with the same
/// result.
pub proof fn lemma_more_steps(ray: Ray, map: WorldMap, passage: Passage, budget: nat, more: nat)
    requires
        map.wf(),
        map.floors <= MAX_FLOORS,
        steady(ray),
        budget > steps_left(ray, map),
        budget >= 1,
        more >= budget,
    ensures
        ray.walk(map, passage, budget) == ray.walk(map, passage, more),
    decreases more - budget,
{
    if more > budget {
        lemma_more_steps(ray, map, passage, budget, (more - 1) as nat);
        lemma_one_more_step(ray, map, passage, (more - 1) as nat);
    }
}

/// A ray that leaves an origin within [`FAR`] of the grid, after any
/// number of portals, is steady, stands within [`FAR`] itself, and can take
/// fewer steps than a walk is given.
pub proof fn lemma_launched_is_steady(
    origin: Vector3f,
    ray_dir: Vector3f,
    portal_recursion: usize,
    dir: Direction,
    map: WorldMap,
)
    requires
        map.wf(),
        -FAR <= origin.x <= FAR,
        -FAR <= origin.y <= FAR,
        -FAR <= origin.z <= FAR,
    ensures
        steady(Ray::launched(origin, ray_dir, portal_recursion, dir)),
        -FAR - ONE <= Ray::launched(origin, ray_dir, portal_recursion, dir).pos.x <= FAR,
        -FAR - ONE <= Ray::launched(origin, ray_dir, portal_recursion, dir).pos.y <= FAR,
        -FAR - ONE <= Ray::launched(origin, ray_dir, portal_recursion, dir).pos.z <= FAR + ONE,
        steps_left(Ray::launched(origin, ray_dir, portal_recursion, dir), map) < walk_budget(
            map.floors,
        ),
{
    let ray = Ray::launched(origin, ray_dir, portal_recursion, dir);
    assert(whole(ray.pos.z)) by {
        if origin.z >= 0 {
            assert(round_of(origin.z) == ((origin.z + 500_000) / 1_000_000) * ONE);
        } else {
            assert(round_of(origin.z) == -(((-origin.z + 500_000) / 1_000_000) * ONE));
        }
    }
    let top = map.floors * ONE - 1;
    if map.floors >= 1 {
        assert((top - 0) / (ONE as int) + 1 <= map.floors) by (nonlinear_arith)
            requires
                top == map.floors * ONE - 1,
                ONE == 1_000_000,
                map.floors >= 1,
        ;
        lemma_cells_left(ray.pos.z as int, ray.step.z as int, 0, top, map.floors as int);
    }
    lemma_cells_left(ray.pos.x as int, ray.step.x as int, 0, GRID * ONE - 1, GRID as int);
    lemma_cells_left(
        ray.pos.x as int,
        ray.step.x as int,
        ray.origin.x - 30 * ONE,
        ray.origin.x + 30 * ONE,
        IN_RANGE as int,
    );
    lemma_cells_left(ray.pos.y as int, ray.step.y as int, 0, GRID * ONE - 1, GRID as int);
    lemma_cells_left(
        ray.pos.y as int,
        ray.step.y as int,
        ray.origin.y - 30 * ONE,
        ray.origin.y + 30 * ONE,
        IN_RANGE as int,
    );
}

/// The steps that a walk is given are never used up.
///
/// Take a ray that leaves an origin within [`FAR`] of the grid, in any
/// direction. Its walk through a map of at most [`MAX_FLOORS`] floors ends
/// before the steps run out that
/// [`Ray::cast`] gives it: with any greater number of steps it ends in the
/// same cell with the same result.
pub proof fn lemma_walk_is_not_cut_off(
    origin: Vector3f,
    ray_dir: Vector3f,
    map: WorldMap,
    more: nat,
)
    requires
        map.wf(),
        map.floors <= MAX_FLOORS,
        -FAR <= origin.x <= FAR,
        -FAR <= origin.y <= FAR,
        -FAR <= origin.z <= FAR,
        more >= walk_budget(map.floors),
    ensures
        Ray::launched(origin, ray_dir, 0, Direction::Unset).walk(map, Passage::start(), more)
            == Ray::launched(origin, ray_dir, 0, Direction::Unset).walk(
            map,
            Passage::start(),
            walk_budget(map.floors),
        ),
{
    lemma_launched_is_steady(origin, ray_dir, 0, Direction::Unset, map);
    lemma_more_steps(
        Ray::launched(origin, ray_dir, 0, Direction::Unset),
        map,
        Passage::start(),
        walk_budget(map.floors),
        more,
    );
}

} // verus!
