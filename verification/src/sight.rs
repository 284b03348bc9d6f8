//! What a ray sees that looks along an axis of the grid: a wall straight
//! ahead, and the top of a short wall that it comes down on.
use vstd::prelude::*;
use crate::cell::Cell;
use crate::direction::Direction;
use crate::fixed::{Fixed, ONE, TWO, HALF, BOUND, floor_int_spec, floor_of, frac_of, minus, round_of,
    sum, diff, prod, ratio};
use crate::map::WorldMap;
use crate::rayobject::{Outcome, Passage, Ray, adjacent, face_gap, floor_step, level_step,
    lemma_ray_lands_on_top, walk_budget};
use crate::vectors::Vector3f;

verus! {

/// The furthest from the origin of the grid, along each axis, that an eye
/// may stand for what is said here.
pub const FAR: Fixed = 1_000_000_000_000;

/// The direction of a ray that crosses faces named `side`: along the first
/// axis for east, against it for west, along the second for north and
/// against it for south.
pub open spec fn toward(side: Direction) -> Vector3f {
    match side {
        Direction::East => Vector3f { x: ONE, y: 0, z: 0 },
        Direction::West => Vector3f { x: -1_000_000i64, y: 0, z: 0 },
        Direction::North => Vector3f { x: 0, y: ONE, z: 0 },
        Direction::South => Vector3f { x: 0, y: -1_000_000i64, z: 0 },
        _ => Vector3f { x: 0, y: 0, z: 0 },
    }
}

/// The direction of a ray toward `side` that falls by `dz` for each unit of
/// its way, and looks down the screen for a `dz` above zero.
pub open spec fn aimed(side: Direction, dz: Fixed) -> Vector3f {
    Vector3f { z: dz, ..toward(side) }
}

/// How many cells ahead a wall may stand to be in range wherever the eye
/// stands in its cell: one less against an axis than along it, because the
/// range is counted from the corner of a cell that has the least
/// coordinates.
pub open spec fn sight_limit(side: Direction) -> int {
    match side {
        Direction::East | Direction::North => 30,
        _ => 29,
    }
}

/// Whether an eye at `origin` can look along its floor: it stands within
/// [`FAR`] of the grid's origin and not exactly between two floors.
pub open spec fn level_eye(origin: Vector3f) -> bool {
    &&& -FAR <= origin.x <= FAR
    &&& -FAR <= origin.y <= FAR
    &&& -FAR <= origin.z <= FAR
    &&& sum(diff(origin.z, round_of(origin.z)), HALF) > 0
}

/// The `k`-th cell from the eye at `origin` toward `side`, as three whole
/// numbers; the cell of the eye for `k == 0`.
pub open spec fn cell_ahead(origin: Vector3f, side: Direction, k: int) -> (int, int, int) {
    let x = floor_int_spec(origin.x as int);
    let y = floor_int_spec(origin.y as int);
    let z = floor_int_spec(round_of(origin.z) as int);
    match side {
        Direction::East => (x + k, y, z),
        Direction::West => (x - k, y, z),
        Direction::North => (x, y + k, z),
        Direction::South => (x, y - k, z),
        _ => (x, y, z),
    }
}

/// How far it is from the eye at `origin` to the near face of the `k`-th
/// cell toward `side`.
pub open spec fn distance_ahead(origin: Vector3f, side: Direction, k: int) -> int {
    let x = floor_int_spec(origin.x as int);
    let y = floor_int_spec(origin.y as int);
    match side {
        Direction::East => (x + k) * ONE - origin.x,
        Direction::West => origin.x - (x - k + 1) * ONE,
        Direction::North => (y + k) * ONE - origin.y,
        Direction::South => origin.y - (y - k + 1) * ONE,
        _ => 0,
    }
}

/// The way to the next face ahead for a ray toward `side`.
pub open spec fn way_ahead(ray: Ray, side: Direction) -> Fixed {
    if side == Direction::East || side == Direction::West {
        ray.side_dist.x
    } else {
        ray.side_dist.y
    }
}

/// Whether a ray from `origin` toward `side` that falls by `dz` crosses the
/// faces into the first `k + 1` cells ahead before it leaves its floor.
pub open spec fn stays_on_floor(origin: Vector3f, side: Direction, dz: Fixed, k: int) -> bool {
    let start = Ray::launched(origin, aimed(side, dz), 0, Direction::Unset);
    way_ahead(start, side) + k * ONE < start.side_dist.z
}

/// The ray from `origin` toward `side`, falling by `dz`, when it has crossed
/// into the `k`-th cell ahead.
pub open spec fn along(origin: Vector3f, side: Direction, dz: Fixed, k: int) -> Ray {
    let start = Ray::launched(origin, aimed(side, dz), 0, Direction::Unset);
    let cell = cell_ahead(origin, side, k);
    let level = side == Direction::East || side == Direction::West;
    Ray {
        pos: Vector3f { x: (cell.0 * ONE) as i64, y: (cell.1 * ONE) as i64, z: start.pos.z },
        side_dist: Vector3f {
            x: if level {
                (start.side_dist.x + k * ONE) as i64
            } else {
                start.side_dist.x
            },
            y: if level {
                start.side_dist.y
            } else {
                (start.side_dist.y + k * ONE) as i64
            },
            z: start.side_dist.z,
        },
        dir: if k == 0 {
            Direction::Unset
        } else {
            side
        },
        ..start
    }
}

/// The gaps between faces and the steps from cell to cell for a ray along
/// an axis.
proof fn lemma_gaps()
    ensures
        face_gap(ONE) == ONE,
        face_gap(-1_000_000i64) == ONE,
        face_gap(0) == BOUND,
        level_step(ONE) == ONE,
        level_step(-1_000_000i64) == -ONE,
        level_step(0) == ONE,
        floor_step(0) == -ONE,
        ratio(diff(ONE, ONE), TWO) == 0,
        ratio(diff(ONE, -1_000_000i64), TWO) == ONE,
{
    assert(crate::fixed::mag(ONE as int) * ONE == 1_000_000int * 1_000_000);
}

/// A real within reach times or over one is itself, over minus one it is
/// its negative, and a positive fraction times the bound is large.
proof fn lemma_products(v: Fixed, f: Fixed)
    requires
        -32 * ONE <= v <= 32 * ONE,
        0 < f <= ONE,
    ensures
        prod(v, ONE) == v,
        ratio(v, ONE) == v,
        ratio(v, -1_000_000i64) == -v,
        prod(f, BOUND) >= 1_000 * ONE,
{
    assert((-v * 1_000_000) / 1_000_000 == -v);
}

/// The floor of a real within reach is a whole number of ones, and the real
/// lies less than one above it.
proof fn lemma_floor(v: Fixed)
    requires
        -FAR <= v <= FAR,
    ensures
        floor_of(v) == floor_int_spec(v as int) * ONE,
        floor_of(v) <= v < floor_of(v) + ONE,
{
}

/// The whole number nearest to a real within reach is a whole number of
/// ones, at most one half away.
proof fn lemma_round(v: Fixed)
    requires
        -FAR <= v <= FAR,
    ensures
        round_of(v) == floor_int_spec(round_of(v) as int) * ONE,
        -HALF <= v - round_of(v) <= HALF,
{
    if v >= 0 {
        assert(round_of(v) == ((v + HALF) / (ONE as int)) * ONE);
    } else {
        assert(round_of(v) == -(((-v + HALF) / (ONE as int)) * ONE));
    }
}

/// The square of a real of at most `n` is at most the square of `n`.
proof fn lemma_square(v: Fixed, n: int)
    requires
        1 <= n <= 30,
        -n * ONE <= v <= n * ONE,
    ensures
        0 <= prod(v, v) <= n * n * ONE,
{
    assert(0 <= v * v <= (n * 1_000_000) * (n * 1_000_000)) by (nonlinear_arith)
        requires
            -n * 1_000_000 <= v <= n * 1_000_000,
            1 <= n,
    ;
    assert((n * 1_000_000) * (n * 1_000_000) == n * n * 1_000_000 * 1_000_000) by (nonlinear_arith);
    assert((v * v) / 1_000_000 <= n * n * 1_000_000) by (nonlinear_arith)
        requires
            0 <= v * v <= n * n * 1_000_000 * 1_000_000,
    ;
    assert(n * n <= 900) by (nonlinear_arith)
        requires
            1 <= n <= 30,
    ;
}

/// A whole number of ones has that whole number as its floor.
proof fn lemma_whole(n: int)
    ensures
        floor_int_spec(n * ONE) == n,
{
}

/// What the ray along an axis looks like in any cell on its way: where it
/// is, how far it has to go to the next face ahead, and that the faces
/// across its way are far.
proof fn lemma_along_shape(origin: Vector3f, side: Direction, dz: Fixed, k: int)
    requires
        level_eye(origin),
        side.is_side_spec(),
        dz >= 0,
        0 <= k <= 31,
    ensures
        ({
            let ray = along(origin, side, dz, k);
            let start = along(origin, side, dz, 0);
            let cell = cell_ahead(origin, side, k);
            let level = side == Direction::East || side == Direction::West;
            &&& ray.pos.x == cell.0 * ONE
            &&& ray.pos.y == cell.1 * ONE
            &&& ray.pos.z == cell.2 * ONE
            &&& ray.origin.x == origin.x
            &&& ray.origin.y == origin.y
            &&& ray.ray_dir == aimed(side, dz)
            &&& ray.delta == start.delta
            &&& ray.step == start.step
            &&& ray.origin == start.origin
            &&& ray.portal_recursion == 0
            &&& dz == 0 ==> ray.side_dist.z >= 1_000 * ONE
            &&& ray.side_dist.z == start.side_dist.z
            &&& ray.step.z == -ONE
            &&& ray.origin.z == origin.z + HALF
            &&& start == Ray::launched(origin, aimed(side, dz), 0, Direction::Unset)
            &&& level ==> {
                &&& ray.delta.x == ONE
                &&& ray.step.x == ray.ray_dir.x
                &&& 0 <= ray.side_dist.x <= 32 * ONE
                &&& ray.side_dist.x == start.side_dist.x + k * ONE
                &&& ray.side_dist.y >= 1_000 * ONE
                &&& ray.side_dist.y == start.side_dist.y
            }
            &&& !level ==> {
                &&& ray.delta.y == ONE
                &&& ray.step.y == ray.ray_dir.y
                &&& 0 <= ray.side_dist.y <= 32 * ONE
                &&& ray.side_dist.y == start.side_dist.y + k * ONE
                &&& ray.side_dist.x >= 1_000 * ONE
                &&& ray.side_dist.x == start.side_dist.x
            }
            &&& -ONE < cell_ahead(origin, side, 0).0 * ONE - origin.x <= 0
            &&& -ONE < cell_ahead(origin, side, 0).1 * ONE - origin.y <= 0
            &&& ray.dir == (if k == 0 {
                Direction::Unset
            } else {
                side
            })
        }),
{
    let start = Ray::launched(origin, aimed(side, dz), 0, Direction::Unset);
    lemma_gaps();
    lemma_floor(origin.x);
    lemma_floor(origin.y);
    lemma_round(origin.z);
    let fz = sum(diff(origin.z, start.pos.z), HALF);
    let near_x = diff(sum(start.pos.x, ONE), origin.x);
    let near_y = diff(sum(start.pos.y, ONE), origin.y);
    let far_x = diff(origin.x, start.pos.x);
    let far_y = diff(origin.y, start.pos.y);
    lemma_products(near_x, fz);
    lemma_products(near_y, near_x);
    lemma_products(far_x, near_y);
    lemma_products(far_y, near_x);
}

/// One step of the ray along an axis leads into the next cell ahead.
proof fn lemma_along_grows(origin: Vector3f, side: Direction, dz: Fixed, k: int)
    requires
        level_eye(origin),
        side.is_side_spec(),
        dz >= 0,
        stays_on_floor(origin, side, dz, k),
        0 <= k <= 30,
    ensures
        along(origin, side, dz, k).grown() == along(origin, side, dz, k + 1),
{
    lemma_along_shape(origin, side, dz, k);
    lemma_along_shape(origin, side, dz, k + 1);
    lemma_along_shape(origin, side, dz, 0);
}

/// The cell that the ray along an axis is in is the map's cell ahead.
proof fn lemma_along_cell(map: WorldMap, origin: Vector3f, side: Direction, dz: Fixed, k: int)
    requires
        level_eye(origin),
        side.is_side_spec(),
        dz >= 0,
        0 <= k <= 31,
    ensures
        ({
            let cell = cell_ahead(origin, side, k);
            &&& map.at_point(along(origin, side, dz, k).pos) == map.at(cell.0, cell.1, cell.2)
            &&& floor_int_spec(along(origin, side, dz, k).pos.z as int) == cell.2
        }),
{
    lemma_along_shape(origin, side, dz, k);
    let cell = cell_ahead(origin, side, k);
    lemma_whole(cell.0);
    lemma_whole(cell.1);
    lemma_whole(cell.2);
}

/// In a cell of air within range the ray along an axis finds nothing and
/// carries nothing on.
proof fn lemma_along_air(map: WorldMap, origin: Vector3f, side: Direction, dz: Fixed, k: int)
    requires
        map.wf(),
        level_eye(origin),
        side.is_side_spec(),
        dz >= 0,
        0 <= k < sight_limit(side),
        0 <= cell_ahead(origin, side, k).2 < map.floors,
        map.at(
            cell_ahead(origin, side, k).0,
            cell_ahead(origin, side, k).1,
            cell_ahead(origin, side, k).2,
        ) == Cell::Empty,
    ensures
        along(origin, side, dz, k).look(map, Passage::start()) == Outcome::On(Passage::start()),
{
    lemma_along_shape(origin, side, dz, k);
    lemma_along_cell(map, origin, side, dz, k);
    let ray = along(origin, side, dz, k);
    let dx = diff(ray.pos.x, ray.origin.x);
    let dy = diff(ray.pos.y, ray.origin.y);
    match side {
        Direction::East => {
            lemma_square(dx, 29);
            lemma_square(dy, 1);
        },
        Direction::West => {
            lemma_square(dx, 29);
            lemma_square(dy, 1);
        },
        Direction::North => {
            lemma_square(dy, 29);
            lemma_square(dx, 1);
        },
        _ => {
            lemma_square(dy, 29);
            lemma_square(dx, 1);
        },
    }
    reveal(Ray::look);
}

/// At a wall of full height the ray along an axis ends, at the distance of
/// the wall's near face from the eye.
proof fn lemma_along_wall(
    map: WorldMap,
    origin: Vector3f,
    side: Direction,
    dz: Fixed,
    k: int,
    value: u32,
)
    requires
        map.wf(),
        level_eye(origin),
        side.is_side_spec(),
        dz >= 0,
        1 <= k <= 30,
        map.at(
            cell_ahead(origin, side, k).0,
            cell_ahead(origin, side, k).1,
            cell_ahead(origin, side, k).2,
        ) == (Cell::Wall { value, height: ONE }),
    ensures
        along(origin, side, dz, k).look(map, Passage::start()) matches Outcome::End(hit) && hit.value
            == Some(value) && hit.dir == side && hit.dist == distance_ahead(origin, side, k)
            && hit.pos == along(origin, side, dz, k).pos,
{
    lemma_along_shape(origin, side, dz, k);
    lemma_along_cell(map, origin, side, dz, k);
    lemma_gaps();
    let ray = along(origin, side, dz, k);
    match side {
        Direction::East => {
            let way = Ray::way_to_face(ray.pos.x, ray.origin.x, ray.step.x);
            lemma_products(way, ONE);
        },
        Direction::West => {
            let way = Ray::way_to_face(ray.pos.x, ray.origin.x, ray.step.x);
            lemma_products(way, ONE);
        },
        Direction::North => {
            let way = Ray::way_to_face(ray.pos.y, ray.origin.y, ray.step.y);
            lemma_products(way, ONE);
        },
        _ => {
            let way = Ray::way_to_face(ray.pos.y, ray.origin.y, ray.step.y);
            lemma_products(way, ONE);
        },
    }
    reveal(Ray::look);
}

/// Whether the eye at `origin` looks toward `side` through `d` cells of
/// air, its own among them, at a wall of full height with the texture
/// `value`, all on one floor of `map`.
pub open spec fn faces_wall(map: WorldMap, origin: Vector3f, side: Direction, d: int, value: u32)
    -> bool {
    &&& 0 <= cell_ahead(origin, side, 0).2 < map.floors
    &&& forall|i: int|
        0 <= i < d ==> #[trigger] map.at(
            cell_ahead(origin, side, i).0,
            cell_ahead(origin, side, i).1,
            cell_ahead(origin, side, i).2,
        ) == Cell::Empty
    &&& map.at(
        cell_ahead(origin, side, d).0,
        cell_ahead(origin, side, d).1,
        cell_ahead(origin, side, d).2,
    ) == (Cell::Wall { value, height: ONE })
}

/// The ray along an axis walks through air up to the wall.
proof fn lemma_walk_to_wall(
    map: WorldMap,
    origin: Vector3f,
    side: Direction,
    k: int,
    d: int,
    value: u32,
    budget: nat,
)
    requires
        map.wf(),
        level_eye(origin),
        side.is_side_spec(),
        0 <= k <= d <= sight_limit(side),
        1 <= d,
        budget > d - k,
        faces_wall(map, origin, side, d, value),
    ensures
        ({
            let hit = along(origin, side, 0, k).walk(map, Passage::start(), budget).0;
            &&& hit.value == Some(value)
            &&& hit.dir == side
            &&& hit.dist == distance_ahead(origin, side, d)
            &&& hit.pos == along(origin, side, 0, d).pos
        }),
    decreases d - k,
{
    if k == d {
        lemma_along_wall(map, origin, side, 0, d, value);
    } else {
        assert(map.at(
            cell_ahead(origin, side, k).0,
            cell_ahead(origin, side, k).1,
            cell_ahead(origin, side, k).2,
        ) == Cell::Empty);
        lemma_along_air(map, origin, side, 0, k);
        lemma_along_shape(origin, side, 0, 0);
        lemma_along_grows(origin, side, 0, k);
        lemma_walk_to_wall(map, origin, side, k + 1, d, value, (budget - 1) as nat);
    }
}

/// A ray straight at a wall hits it at its distance.
///
/// Take an eye on a floor of the map that looks along or against one of
/// the level axes, through cells of air, at a wall of full height in the
/// `d`-th cell ahead, with `d` from 1 up to the limit of sight. The ray from
/// the eye ends at that wall: with the wall's texture, on the face that a ray
/// in its direction meets, and at exactly the distance from the eye to the
/// near face of the wall.
pub proof fn lemma_wall_ahead_is_hit(map: WorldMap, origin: Vector3f, side: Direction, d: int, value: u32)
    requires
        map.wf(),
        level_eye(origin),
        side.is_side_spec(),
        1 <= d <= sight_limit(side),
        faces_wall(map, origin, side, d, value),
    ensures
        ({
            let hit = Ray::launched(origin, toward(side), 0, Direction::Unset).walk(
                map,
                Passage::start(),
                walk_budget(map.floors),
            ).0;
            &&& hit.value == Some(value)
            &&& hit.dir == side
            &&& hit.dist == distance_ahead(origin, side, d)
            &&& hit.pos.x == cell_ahead(origin, side, d).0 * ONE
            &&& hit.pos.y == cell_ahead(origin, side, d).1 * ONE
            &&& (d - 1) * ONE <= hit.dist <= d * ONE
        }),
{
    assert(aimed(side, 0) == toward(side));
    lemma_along_shape(origin, side, 0, 0);
    lemma_along_shape(origin, side, 0, d);
    lemma_walk_to_wall(map, origin, side, 0, d, value, walk_budget(map.floors));
}

/// The height within its cell at which a ray from `origin` toward `side`,
/// falling by `dz`, comes into the `k`-th cell ahead.
pub open spec fn height_at(origin: Vector3f, side: Direction, dz: Fixed, k: int) -> Fixed {
    frac_of(sum(sum(origin.z, HALF), prod(distance_ahead(origin, side, k) as i64, minus(dz))))
}

/// The length, counted below zero, at which a ray from `origin` that falls
/// by `dz` is level with the top of a wall of the height `h` on the eye's
/// floor: the height of the top less that of the eye, over `dz`.
pub open spec fn landing_dist(origin: Vector3f, dz: Fixed, h: Fixed) -> Fixed {
    ratio(diff(sum(round_of(origin.z), h), sum(origin.z, HALF)), dz)
}

/// What the ray carries on from the short wall in the `k`-th cell ahead.
pub open spec fn gone_over(origin: Vector3f, side: Direction, dz: Fixed, k: int, h: Fixed)
    -> Passage {
    Passage { through: true, pos: along(origin, side, dz, k).pos, height: h, ..Passage::start() }
}

/// Whether the eye at `origin` looks toward `side` through `k` cells of
/// air, its own among them, at a wall lower than 1 with the texture `value`
/// and the height `h`, or stands in the cell of that wall for `k == 0`, all
/// on one floor of `map`.
pub open spec fn faces_short_wall(
    map: WorldMap,
    origin: Vector3f,
    side: Direction,
    k: int,
    value: u32,
    h: Fixed,
) -> bool {
    &&& 0 <= cell_ahead(origin, side, 0).2 < map.floors
    &&& 0 < h < ONE
    &&& forall|i: int|
        0 <= i < k ==> #[trigger] map.at(
            cell_ahead(origin, side, i).0,
            cell_ahead(origin, side, i).1,
            cell_ahead(origin, side, i).2,
        ) == Cell::Empty
    &&& map.at(
        cell_ahead(origin, side, k).0,
        cell_ahead(origin, side, k).1,
        cell_ahead(origin, side, k).2,
    ) == (Cell::Wall { value, height: h })
}

/// The ray along an axis comes into the `k`-th cell ahead after the
/// distance to that cell, at the height that belongs to the distance.
proof fn lemma_along_height(origin: Vector3f, side: Direction, dz: Fixed, k: int)
    requires
        level_eye(origin),
        side.is_side_spec(),
        dz >= 0,
        1 <= k <= 31,
    ensures
        along(origin, side, dz, k).dist_spec() == distance_ahead(origin, side, k),
        along(origin, side, dz, k).texture_at(side, along(origin, side, dz, k).dist_spec()).y
            == height_at(origin, side, dz, k),
{
    lemma_along_shape(origin, side, dz, k);
    lemma_gaps();
    let ray = along(origin, side, dz, k);
    if side == Direction::East || side == Direction::West {
        lemma_products(Ray::way_to_face(ray.pos.x, ray.origin.x, ray.step.x), ONE);
    } else {
        lemma_products(Ray::way_to_face(ray.pos.y, ray.origin.y, ray.step.y), ONE);
    }
}

/// The ray along an axis goes over a short wall that it meets above its
/// top, or in whose cell its eye is.
proof fn lemma_along_short_wall(
    map: WorldMap,
    origin: Vector3f,
    side: Direction,
    dz: Fixed,
    k: int,
    value: u32,
    h: Fixed,
)
    requires
        map.wf(),
        level_eye(origin),
        side.is_side_spec(),
        dz >= 0,
        0 <= k <= 30,
        faces_short_wall(map, origin, side, k, value, h),
        k == 0 || height_at(origin, side, dz, k) > h,
    ensures
        along(origin, side, dz, k).look(map, Passage::start()) == Outcome::On(
            gone_over(origin, side, dz, k, h),
        ),
{
    lemma_along_shape(origin, side, dz, k);
    lemma_along_cell(map, origin, side, dz, k);
    let ray = along(origin, side, dz, k);
    if k >= 1 {
        lemma_along_height(origin, side, dz, k);
    }
    reveal(Ray::look);
}

/// The ray along an axis that has gone over a short wall and comes into
/// the next cell at or below the wall's height hits the top of the wall.
proof fn lemma_along_landing(
    map: WorldMap,
    origin: Vector3f,
    side: Direction,
    dz: Fixed,
    k: int,
    value: u32,
    h: Fixed,
)
    requires
        map.wf(),
        level_eye(origin),
        side.is_side_spec(),
        dz > 0,
        0 <= k <= 30,
        faces_short_wall(map, origin, side, k, value, h),
        height_at(origin, side, dz, k + 1) <= h,
    ensures
        along(origin, side, dz, k + 1).look(map, gone_over(origin, side, dz, k, h)) matches Outcome::End(
            hit,
        ) && hit.value == Some(value) && hit.dir == Direction::Up && hit.pos == along(
            origin,
            side,
            dz,
            k + 1,
        ).pos && hit.dist == landing_dist(origin, dz, h),
{
    lemma_along_shape(origin, side, dz, k);
    lemma_along_shape(origin, side, dz, k + 1);
    lemma_along_cell(map, origin, side, dz, k);
    lemma_along_height(origin, side, dz, k + 1);
    lemma_round(origin.z);
    lemma_gaps();
    let ray = along(origin, side, dz, k + 1);
    let passage = gone_over(origin, side, dz, k, h);
    assert(adjacent(passage.pos, ray.pos));
    lemma_ray_lands_on_top(ray, map, passage);
}

/// The ray along an axis walks through air up to the short wall, over it,
/// and down on its top.
proof fn lemma_walk_to_short_wall(
    map: WorldMap,
    origin: Vector3f,
    side: Direction,
    dz: Fixed,
    j: int,
    k: int,
    value: u32,
    h: Fixed,
    budget: nat,
)
    requires
        map.wf(),
        level_eye(origin),
        side.is_side_spec(),
        dz > 0,
        0 <= j <= k <= 30,
        k <= sight_limit(side),
        budget > k - j + 1,
        stays_on_floor(origin, side, dz, k),
        faces_short_wall(map, origin, side, k, value, h),
        k == 0 || height_at(origin, side, dz, k) > h,
        height_at(origin, side, dz, k + 1) <= h,
    ensures
        ({
            let hit = along(origin, side, dz, j).walk(map, Passage::start(), budget).0;
            &&& hit.value == Some(value)
            &&& hit.dir == Direction::Up
            &&& hit.dist == landing_dist(origin, dz, h)
            &&& hit.pos == along(origin, side, dz, k + 1).pos
        }),
    decreases k - j,
{
    if j == k {
        lemma_along_short_wall(map, origin, side, dz, k, value, h);
        lemma_along_grows(origin, side, dz, k);
        lemma_along_landing(map, origin, side, dz, k, value, h);
        let over = gone_over(origin, side, dz, k, h);
        let next = along(origin, side, dz, k + 1);
        assert(along(origin, side, dz, k).walk(map, Passage::start(), budget) == next.walk(
            map,
            over,
            (budget - 1) as nat,
        ));
    } else {
        assert(map.at(
            cell_ahead(origin, side, j).0,
            cell_ahead(origin, side, j).1,
            cell_ahead(origin, side, j).2,
        ) == Cell::Empty);
        lemma_along_air(map, origin, side, dz, j);
        lemma_along_grows(origin, side, dz, j);
        lemma_walk_to_short_wall(map, origin, side, dz, j + 1, k, value, h, (budget - 1) as nat);
    }
}

/// A ray that goes over a short wall and comes down on it hits its top.
///
/// Take an eye on a floor of the map that looks along or against one of
/// the level axes and down the screen, so that the ray falls by `dz` for
/// each unit of its way. Let there be only air up to a wall lower than 1 in
/// the `k`-th cell ahead, or let the eye be in the cell of that wall. Let
/// the ray come into that cell above the wall's height, come into the next
/// cell at or below it, and cross no floor before. Then the ray ends in the
/// cell behind the wall: with the wall's texture, on a face that looks up, at
/// the length at which it is level with the wall's top.
pub proof fn lemma_ray_lands_on_short_wall(
    map: WorldMap,
    origin: Vector3f,
    side: Direction,
    dz: Fixed,
    k: int,
    value: u32,
    h: Fixed,
)
    requires
        map.wf(),
        level_eye(origin),
        side.is_side_spec(),
        dz > 0,
        0 <= k <= sight_limit(side),
        stays_on_floor(origin, side, dz, k),
        faces_short_wall(map, origin, side, k, value, h),
        k == 0 || height_at(origin, side, dz, k) > h,
        height_at(origin, side, dz, k + 1) <= h,
    ensures
        ({
            let hit = Ray::launched(origin, aimed(side, dz), 0, Direction::Unset).walk(
                map,
                Passage::start(),
                walk_budget(map.floors),
            ).0;
            &&& hit.value == Some(value)
            &&& hit.dir == Direction::Up
            &&& hit.dist == landing_dist(origin, dz, h)
            &&& hit.pos.x == cell_ahead(origin, side, k + 1).0 * ONE
            &&& hit.pos.y == cell_ahead(origin, side, k + 1).1 * ONE
        }),
{
    lemma_along_shape(origin, side, dz, 0);
    lemma_along_shape(origin, side, dz, k + 1);
    lemma_walk_to_short_wall(map, origin, side, dz, 0, k, value, h, walk_budget(map.floors));
}

/// A ray that is still above a short wall where it leaves the wall's cell
/// does not come down on it.
///
/// Take the ray of [`lemma_ray_lands_on_short_wall`], with the one
/// difference that it comes into the cell behind the wall above the wall's
/// height. In that cell it finds no top of a wall; what it finds there is
/// what the cell itself holds.
pub proof fn lemma_ray_stays_above_short_wall(
    map: WorldMap,
    origin: Vector3f,
    side: Direction,
    dz: Fixed,
    k: int,
    h: Fixed,
)
    requires
        level_eye(origin),
        side.is_side_spec(),
        dz >= 0,
        0 <= k <= 30,
        height_at(origin, side, dz, k + 1) > h,
    ensures
        along(origin, side, dz, k + 1).ceiling(map, gone_over(origin, side, dz, k, h)) is None,
{
    lemma_along_shape(origin, side, dz, k + 1);
    lemma_along_height(origin, side, dz, k + 1);
}

/// The ray through a point in the middle column of the screen, for a
/// player who heads along or against a level axis, is the ray toward that
/// side that falls by half the height of the point.
pub proof fn lemma_middle_column(player: crate::player::Player, side: Direction, height: Fixed)
    requires
        side.is_side_spec(),
        player.dir.x == toward(side).x,
        player.dir.y == toward(side).y,
    ensures
        Ray::aim(player.dir, player.plane, crate::vectors::Vector2 { x: 0, y: height }) == aimed(
            side,
            prod(HALF, height),
        ),
{
    assert(player.plane.x * 0 == 0 && player.plane.y * 0 == 0);
}

/// A player who looks straight at a wall has it in sight at its distance.
///
/// Take a player who stands on a floor of the map and heads along or
/// against one of the level axes, with only air up to a wall of full height
/// in the `d`-th cell ahead. The ray through the middle of the screen ends at
/// that wall, on the face that the player's heading meets, at exactly the
/// distance from the player to the near face of the wall.
pub proof fn lemma_player_sees_wall(
    player: crate::player::Player,
    map: WorldMap,
    side: Direction,
    d: int,
    value: u32,
)
    requires
        map.wf(),
        level_eye(player.pos),
        side.is_side_spec(),
        player.dir.x == toward(side).x,
        player.dir.y == toward(side).y,
        1 <= d <= sight_limit(side),
        faces_wall(map, player.pos, side, d, value),
    ensures
        player.sight(map).value == Some(value),
        player.sight(map).dir == side,
        player.sight(map).dist == distance_ahead(player.pos, side, d),
{
    lemma_middle_column(player, side, 0);
    assert(aimed(side, prod(HALF, 0)) == toward(side));
    lemma_wall_ahead_is_hit(map, player.pos, side, d, value);
}

} // verus!
