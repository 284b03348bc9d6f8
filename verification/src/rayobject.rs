//! Rays: the walk through the grid, cell by cell, to the first thing hit.
use vstd::prelude::*;
use crate::cell::{Cell, Interaction, Thin, ThinObject, DOOR_VALUE};
use crate::direction::Direction;
use crate::fixed::{Fixed, ONE, TWO, HALF, BOUND, sum, diff, prod, ratio, minus, size, floor_of, frac_of, round_of,
    fx_add, fx_sub, fx_mul, fx_div, fx_neg, fx_abs, fx_floor, fx_frac, fx_round};
use crate::map::WorldMap;
use crate::player::Player;
use crate::portal::Portal;
use crate::vectors::{Vector2, Vector2f, Vector3f};

verus! {

/// How many portals a ray passes before the next one is drawn as a surface.
pub const PORTAL_RECURSION_LIMIT: usize = 3;

/// How far from its origin a ray looks for a wall, level with the ground.
pub const RAY_RANGE: Fixed = 30_000_000;

/// The steps a walk takes beyond one per floor before it is given up.
pub const WALK_STEPS: u64 = 400;

/// A ray on its way through the grid.
#[derive(Clone, Copy, Debug, PartialEq, Eq, Structural)]
pub struct Ray {
    /// The cell the ray is in, in whole coordinates.
    pub pos: Vector3f,
    /// The direction of the ray.
    pub ray_dir: Vector3f,
    /// For each axis, the length of ray between two faces across that axis.
    pub delta: Vector3f,
    /// For each axis, the coordinate's change from cell to cell: 1 or -1.
    pub step: Vector3f,
    /// For each axis, the length of ray up to the next face across that axis.
    pub side_dist: Vector3f,
    /// Where the ray starts; its height is counted from the bottom of a cell.
    pub origin: Vector3f,
    /// The number of portals passed.
    pub portal_recursion: usize,
    /// The face through which the ray came into its cell.
    pub dir: Direction,
}

/// What a ray ends at.
#[derive(Clone, Copy, Debug, PartialEq, Eq)]
pub struct Hit {
    /// The texture of what was hit, or nothing for a ray that went out of
    /// range.
    pub value: Option<u32>,
    /// The cell where the ray ended.
    pub pos: Vector3f,
    /// The length of the ray, in units of its direction.
    pub dist: Fixed,
    /// The face that was hit.
    pub dir: Direction,
    /// The point of the face that was hit, both coordinates in `[0, 1)`.
    pub texture_pos: Vector2f,
}

impl Hit {
    /// A hit is well formed when its texture point lies in the unit square.
    pub open spec fn wf(self) -> bool {
        &&& 0 <= self.texture_pos.x < ONE
        &&& 0 <= self.texture_pos.y < ONE
    }
}

/// The length of ray between two faces across an axis along which the
/// direction has the component `d`: the magnitude of `1 / d`, and the bound
/// for a ray that never crosses such a face.
pub open spec fn face_gap(d: Fixed) -> Fixed {
    size(ratio(ONE, d))
}

/// The step from cell to cell along a level axis: -1 against the axis, else 1.
pub open spec fn level_step(d: Fixed) -> Fixed {
    if d < 0 {
        -1_000_000i64
    } else {
        ONE
    }
}

/// The step from floor to floor: 1 for a ray that looks up the screen, else -1.
pub open spec fn floor_step(d: Fixed) -> Fixed {
    if d < 0 {
        ONE
    } else {
        -1_000_000i64
    }
}

/// Whether two cells share a face.
pub open spec fn adjacent(b1: Vector3f, b2: Vector3f) -> bool {
    ||| (b1.x == b2.x && b1.y == b2.y && (diff(b1.z, ONE) == b2.z || sum(b1.z, ONE) == b2.z))
    ||| (b1.x == b2.x && (diff(b1.y, ONE) == b2.y || sum(b1.y, ONE) == b2.y) && b1.z == b2.z)
    ||| ((diff(b1.x, ONE) == b2.x || sum(b1.x, ONE) == b2.x) && b1.y == b2.y && b1.z == b2.z)
}

impl Ray {
    /// The direction of the ray through the point `camera_dir` of the screen,
    /// whose coordinates run from -1 to 1, for a camera with the heading `dir`
    /// and the plane `plane`.
    pub open spec fn aim(dir: Vector2f, plane: Vector2f, camera_dir: Vector2f) -> Vector3f {
        Vector3f {
            x: sum(dir.x, prod(plane.x, camera_dir.x)),
            y: sum(dir.y, prod(plane.y, camera_dir.x)),
            z: prod(HALF, camera_dir.y),
        }
    }

    /// The ray that leaves `origin` in the direction `ray_dir`.
    ///
    /// It starts in the cell that holds `origin`, floors being centred on
    /// whole heights. Along each axis the length up to the first face is the
    /// way to that face times the gap between faces. The origin is then
    /// raised by one half, so that heights count from the bottom of a cell.
    pub open spec fn launched(
        origin: Vector3f,
        ray_dir: Vector3f,
        portal_recursion: usize,
        dir: Direction,
    ) -> Ray {
        let pos = Vector3f { x: floor_of(origin.x), y: floor_of(origin.y), z: round_of(origin.z) };
        let delta = Vector3f {
            x: face_gap(ray_dir.x),
            y: face_gap(ray_dir.y),
            z: face_gap(ray_dir.z),
        };
        let step = Vector3f {
            x: level_step(ray_dir.x),
            y: level_step(ray_dir.y),
            z: floor_step(ray_dir.z),
        };
        let side_dist = Vector3f {
            x: prod(
                if ray_dir.x < 0 {
                    diff(origin.x, pos.x)
                } else {
                    diff(sum(pos.x, ONE), origin.x)
                },
                delta.x,
            ),
            y: prod(
                if ray_dir.y < 0 {
                    diff(origin.y, pos.y)
                } else {
                    diff(sum(pos.y, ONE), origin.y)
                },
                delta.y,
            ),
            z: prod(
                if ray_dir.z < 0 {
                    sum(diff(pos.z, origin.z), HALF)
                } else {
                    sum(diff(origin.z, pos.z), HALF)
                },
                delta.z,
            ),
        };
        Ray {
            pos,
            ray_dir,
            delta,
            step,
            side_dist,
            origin: Vector3f { x: origin.x, y: origin.y, z: sum(origin.z, HALF) },
            portal_recursion,
            dir,
        }
    }

    /// Sets a ray up at `origin` in the direction `ray_dir`.
    fn launch(origin: Vector3f, ray_dir: Vector3f, portal_recursion: usize, dir: Direction) -> (r:
        Ray)
        ensures
            r == Ray::launched(origin, ray_dir, portal_recursion, dir),
    {
        let pos: Vector3f = Vector3f::new(
            fx_floor(origin.x),
            fx_floor(origin.y),
            fx_round(origin.z),
        );
        let delta: Vector3f = Vector3f::new(
            fx_abs(fx_div(ONE, ray_dir.x)),
            fx_abs(fx_div(ONE, ray_dir.y)),
            fx_abs(fx_div(ONE, ray_dir.z)),
        );
        let step: Vector3f = Vector3f::new(
            if ray_dir.x < 0 { -ONE } else { ONE },
            if ray_dir.y < 0 { -ONE } else { ONE },
            if ray_dir.z < 0 { ONE } else { -ONE },
        );
        let side_dist: Vector3f = Vector3f::new(
            fx_mul(
                if ray_dir.x < 0 {
                    fx_sub(origin.x, pos.x)
                } else {
                    fx_sub(fx_add(pos.x, ONE), origin.x)
                },
                delta.x,
            ),
            fx_mul(
                if ray_dir.y < 0 {
                    fx_sub(origin.y, pos.y)
                } else {
                    fx_sub(fx_add(pos.y, ONE), origin.y)
                },
                delta.y,
            ),
            fx_mul(
                if ray_dir.z < 0 {
                    fx_add(fx_sub(pos.z, origin.z), HALF)
                } else {
                    fx_add(fx_sub(origin.z, pos.z), HALF)
                },
                delta.z,
            ),
        );
        Ray {
            pos,
            ray_dir,
            delta,
            step,
            side_dist,
            origin: Vector3f::new(origin.x, origin.y, fx_add(origin.z, HALF)),
            portal_recursion,
            dir,
        }
    }

    /// The ray from the player's eye through the point `camera_dir` of the
    /// screen. It has passed no portal and crossed no face.
    pub fn new(player: &Player, camera_dir: Vector2f) -> (r: Ray)
        ensures
            r == Ray::launched(
                player.pos,
                Ray::aim(player.dir, player.plane, camera_dir),
                0,
                Direction::Unset,
            ),
    {
        let dir: Vector3f = Vector3f::new(
            fx_add(player.dir.x, fx_mul(player.plane.x, camera_dir.x)),
            fx_add(player.dir.y, fx_mul(player.plane.y, camera_dir.x)),
            fx_mul(HALF, camera_dir.y),
        );
        Ray::launch(player.pos, dir, 0, Direction::Unset)
    }

    /// The ray moved to `new_origin` and turned by `new_dir` radians about
    /// the vertical. It keeps its count of portals and its last face.
    pub open spec fn relocated(self, new_origin: Vector3f, new_dir: Fixed) -> Ray {
        let level = (Vector2 { x: self.ray_dir.x, y: self.ray_dir.y }).rotated(new_dir as int);
        Ray::launched(
            new_origin,
            Vector3f { x: level.x, y: level.y, z: self.ray_dir.z },
            self.portal_recursion,
            self.dir,
        )
    }

    /// Moves the ray to `new_origin` and turns it by `new_dir` radians.
    fn relocate(&mut self, new_origin: Vector3f, new_dir: Fixed)
        ensures
            *final(self) == old(self).relocated(new_origin, new_dir),
    {
        let mut level: Vector2f = Vector2::new(self.ray_dir.x, self.ray_dir.y);
        level.rotate(new_dir);
        *self = Ray::launch(
            new_origin,
            Vector3f::new(level.x, level.y, self.ray_dir.z),
            self.portal_recursion,
            self.dir,
        );
    }

    /// The ray one cell further along the first axis.
    pub open spec fn grown_x(self) -> Ray {
        let x = sum(self.pos.x, self.step.x);
        Ray {
            pos: Vector3f { x, ..self.pos },
            side_dist: Vector3f { x: sum(self.side_dist.x, self.delta.x), ..self.side_dist },
            dir: if self.origin.x < x {
                Direction::East
            } else {
                Direction::West
            },
            ..self
        }
    }

    /// The ray one cell further along the second axis.
    pub open spec fn grown_y(self) -> Ray {
        let y = sum(self.pos.y, self.step.y);
        Ray {
            pos: Vector3f { y, ..self.pos },
            side_dist: Vector3f { y: sum(self.side_dist.y, self.delta.y), ..self.side_dist },
            dir: if self.origin.y < y {
                Direction::North
            } else {
                Direction::South
            },
            ..self
        }
    }

    /// The ray one floor further.
    pub open spec fn grown_z(self) -> Ray {
        Ray {
            pos: Vector3f { z: sum(self.pos.z, self.step.z), ..self.pos },
            side_dist: Vector3f { z: sum(self.side_dist.z, self.delta.z), ..self.side_dist },
            dir: if self.ray_dir.z > 0 {
                Direction::Up
            } else {
                Direction::Down
            },
            ..self
        }
    }

    /// The ray in the next cell on its way: across the face that is nearest
    /// along the ray. Where a level face is no nearer than the next floor,
    /// the floor is crossed.
    pub open spec fn grown(self) -> Ray {
        if self.side_dist.x < self.side_dist.y {
            if self.side_dist.x < self.side_dist.z {
                self.grown_x()
            } else {
                self.grown_z()
            }
        } else {
            if self.side_dist.y < self.side_dist.z {
                self.grown_y()
            } else {
                self.grown_z()
            }
        }
    }

    fn grow_x(&mut self)
        ensures
            *final(self) == old(self).grown_x(),
    {
        self.pos.x = fx_add(self.pos.x, self.step.x);
        self.side_dist.x = fx_add(self.side_dist.x, self.delta.x);
        self.dir = if self.origin.x < self.pos.x {
            Direction::East
        } else {
            Direction::West
        };
    }

    fn grow_y(&mut self)
        ensures
            *final(self) == old(self).grown_y(),
    {
        self.pos.y = fx_add(self.pos.y, self.step.y);
        self.side_dist.y = fx_add(self.side_dist.y, self.delta.y);
        self.dir = if self.origin.y < self.pos.y {
            Direction::North
        } else {
            Direction::South
        };
    }

    fn grow_z(&mut self)
        ensures
            *final(self) == old(self).grown_z(),
    {
        self.pos.z = fx_add(self.pos.z, self.step.z);
        self.side_dist.z = fx_add(self.side_dist.z, self.delta.z);
        self.dir = if self.ray_dir.z > 0 {
            Direction::Up
        } else {
            Direction::Down
        };
    }

    /// Moves the ray into the next cell on its way.
    pub fn grow(&mut self)
        ensures
            *final(self) == old(self).grown(),
    {
        if self.side_dist.x < self.side_dist.y {
            if self.side_dist.x < self.side_dist.z {
                self.grow_x();
            } else {
                self.grow_z();
            }
        } else {
            if self.side_dist.y < self.side_dist.z {
                self.grow_y();
            } else {
                self.grow_z();
            }
        }
    }

    /// The way along one axis from the origin to the face through which the
    /// ray came into its cell: the near face of the cell for a ray that runs
    /// with the axis, the far one for a ray that runs against it.
    pub open spec fn way_to_face(pos: Fixed, origin: Fixed, step: Fixed) -> Fixed {
        sum(diff(pos, origin), ratio(diff(ONE, step), TWO))
    }

    /// The length of the ray up to the face through which it came into its
    /// cell, and 0 where it has crossed none.
    pub open spec fn dist_spec(self) -> Fixed {
        match self.dir {
            Direction::Unset => 0,
            Direction::North | Direction::South => ratio(
                Self::way_to_face(self.pos.y, self.origin.y, self.step.y),
                self.ray_dir.y,
            ),
            Direction::East | Direction::West => ratio(
                Self::way_to_face(self.pos.x, self.origin.x, self.step.x),
                self.ray_dir.x,
            ),
            Direction::Up | Direction::Down => ratio(
                Self::way_to_face(self.pos.z, self.origin.z, self.step.z),
                self.ray_dir.z,
            ),
        }
    }

    fn way(pos: Fixed, origin: Fixed, step: Fixed) -> (r: Fixed)
        ensures
            r == Self::way_to_face(pos, origin, step),
    {
        fx_add(fx_sub(pos, origin), fx_div(fx_sub(ONE, step), TWO))
    }

    /// The length of the ray up to the face through which it came into its
    /// cell.
    fn compute_dist(&self) -> (r: Fixed)
        ensures
            r == self.dist_spec(),
    {
        match self.dir {
            Direction::Unset => 0,
            Direction::North | Direction::South => fx_div(
                Self::way(self.pos.y, self.origin.y, self.step.y),
                self.ray_dir.y,
            ),
            Direction::East | Direction::West => fx_div(
                Self::way(self.pos.x, self.origin.x, self.step.x),
                self.ray_dir.x,
            ),
            Direction::Up | Direction::Down => fx_div(
                Self::way(self.pos.z, self.origin.z, self.step.z),
                self.ray_dir.z,
            ),
        }
    }

    /// The point of a face `dir` that the ray meets after the length `dist`,
    /// each coordinate taken within its cell.
    ///
    /// On a side face the first coordinate runs along the face and the second
    /// up the wall. On a top or bottom face the two coordinates are those of
    /// the floor plan, counted from where the ray came into the cell.
    pub open spec fn texture_at(self, dir: Direction, dist: Fixed) -> Vector2f {
        let height = sum(self.origin.z, prod(dist, minus(self.ray_dir.z)));
        let point: Vector2f = match dir {
            Direction::Unset => Vector2 { x: 0, y: 0 },
            Direction::North | Direction::South => Vector2 {
                x: sum(self.origin.x, prod(dist, self.ray_dir.x)),
                y: height,
            },
            Direction::West | Direction::East => Vector2 {
                x: sum(self.origin.y, prod(dist, self.ray_dir.y)),
                y: height,
            },
            Direction::Up | Direction::Down => Vector2 {
                x: prod(
                    sum(
                        ratio(
                            Self::way_to_face(self.pos.x, self.origin.x, self.step.x),
                            self.ray_dir.x,
                        ),
                        dist,
                    ),
                    self.ray_dir.x,
                ),
                y: prod(
                    sum(
                        ratio(
                            Self::way_to_face(self.pos.y, self.origin.y, self.step.y),
                            self.ray_dir.y,
                        ),
                        dist,
                    ),
                    self.ray_dir.y,
                ),
            },
        };
        Vector2 { x: frac_of(point.x), y: frac_of(point.y) }
    }

    /// The point of a face `dir` that the ray meets after the length `dist`.
    fn compute_texture_pos(&self, dir: &Direction, dist: Fixed) -> (r: Vector2f)
        ensures
            r == self.texture_at(*dir, dist),
            0 <= r.x < ONE,
            0 <= r.y < ONE,
    {
        let texture_pos: Vector2f = match dir {
            Direction::Unset => Vector2f::zero(),
            Direction::North | Direction::South => Vector2::new(
                fx_add(self.origin.x, fx_mul(dist, self.ray_dir.x)),
                fx_add(self.origin.z, fx_mul(dist, fx_neg(self.ray_dir.z))),
            ),
            Direction::West | Direction::East => Vector2::new(
                fx_add(self.origin.y, fx_mul(dist, self.ray_dir.y)),
                fx_add(self.origin.z, fx_mul(dist, fx_neg(self.ray_dir.z))),
            ),
            Direction::Up | Direction::Down => Vector2::new(
                fx_mul(
                    fx_add(
                        fx_div(Self::way(self.pos.x, self.origin.x, self.step.x), self.ray_dir.x),
                        dist,
                    ),
                    self.ray_dir.x,
                ),
                fx_mul(
                    fx_add(
                        fx_div(Self::way(self.pos.y, self.origin.y, self.step.y), self.ray_dir.y),
                        dist,
                    ),
                    self.ray_dir.y,
                ),
            ),
        };
        Vector2::new(fx_frac(texture_pos.x), fx_frac(texture_pos.y))
    }

    /// Whether two cells share a face.
    fn is_block_adjacent(b1: Vector3f, b2: Vector3f) -> (r: bool)
        ensures
            r == adjacent(b1, b2),
    {
        (b1.x == b2.x && b1.y == b2.y && (fx_sub(b1.z, ONE) == b2.z || fx_add(b1.z, ONE) == b2.z))
            || (b1.x == b2.x && (fx_sub(b1.y, ONE) == b2.y || fx_add(b1.y, ONE) == b2.y) && b1.z
            == b2.z) || ((fx_sub(b1.x, ONE) == b2.x || fx_add(b1.x, ONE) == b2.x) && b1.y == b2.y
            && b1.z == b2.z)
    }
}

/// A ray as a thin wall sees it: the axis `a` runs across the wall, the axis
/// `b` along it.
pub struct Approach {
    pub origin_a: Fixed,
    pub origin_b: Fixed,
    pub origin_z: Fixed,
    pub pos_a: Fixed,
    pub pos_b: Fixed,
    pub pos_z: Fixed,
    pub dir_a: Fixed,
    pub dir_b: Fixed,
    pub dir_z: Fixed,
    pub step_a: Fixed,
    pub step_b: Fixed,
}

impl Approach {
    /// Where the ray meets a thin wall, as the length of ray and the point of
    /// the wall's texture, if it meets it at all.
    ///
    /// A ray that runs along the wall, with no component across it, never
    /// crosses the wall's plane and does not meet the wall. Any other is
    /// followed from the plane `base` for the depth `d` across the wall.
    /// Where it then is along the wall must lie in the ray's cell and on the
    /// part of the width that the panel covers, which starts at the cell's
    /// corner and is `slide` wide. The wall stands at `limit` from that
    /// corner, and a ray that runs away from it does not meet it. The texture
    /// is shifted along with the panel, and the point of the wall must lie
    /// within the height of the cell.
    pub open spec fn meet(self, base: Fixed, d: Fixed, limit: Fixed, slide: Fixed) -> Option<
        (Fixed, Vector2f),
    > {
        let mult = ratio(diff(base, self.origin_a), self.dir_a);
        let start_a = sum(self.origin_a, prod(self.dir_a, mult));
        let start_b = sum(self.origin_b, prod(self.dir_b, mult));
        let cross_b = sum(start_b, prod(prod(self.step_b, size(ratio(self.dir_b, self.dir_a))), d));
        let near = self.origin_a < sum(self.pos_a, limit);
        let dist = ratio(diff(sum(start_a, prod(self.step_a, d)), self.origin_a), self.dir_a);
        let along = diff(sum(self.origin_b, prod(dist, self.dir_b)), slide);
        let up = sum(self.origin_z, prod(dist, minus(self.dir_z)));
        if self.dir_a == 0 {
            None
        } else if floor_of(cross_b) != self.pos_b || size(diff(self.pos_b, cross_b)) >= slide {
            None
        } else if (near && self.step_a < 0) || (!near && self.step_a > 0) {
            None
        } else if up < self.pos_z || up > sum(self.pos_z, ONE) {
            None
        } else {
            Some((dist, Vector2 { x: frac_of(along), y: frac_of(up) }))
        }
    }

    /// Where the ray meets the thin wall, see [`Approach::meet`].
    fn find(&self, base: Fixed, d: Fixed, limit: Fixed, slide: Fixed) -> (r: Option<
        (Fixed, Vector2f),
    >)
        ensures
            r == self.meet(base, d, limit, slide),
            r matches Some(found) ==> 0 <= found.1.x < ONE && 0 <= found.1.y < ONE,
    {
        if self.dir_a == 0 {
            return None;
        }
        let mult: Fixed = fx_div(fx_sub(base, self.origin_a), self.dir_a);
        let start_a: Fixed = fx_add(self.origin_a, fx_mul(self.dir_a, mult));
        let start_b: Fixed = fx_add(self.origin_b, fx_mul(self.dir_b, mult));
        let cross_b: Fixed = fx_add(
            start_b,
            fx_mul(fx_mul(self.step_b, fx_abs(fx_div(self.dir_b, self.dir_a))), d),
        );
        if fx_floor(cross_b) != self.pos_b || fx_abs(fx_sub(self.pos_b, cross_b)) >= slide {
            return None;
        }
        let near: bool = self.origin_a < fx_add(self.pos_a, limit);
        if (near && self.step_a < 0) || (!near && self.step_a > 0) {
            return None;
        }
        let dist: Fixed = fx_div(
            fx_sub(fx_add(start_a, fx_mul(self.step_a, d)), self.origin_a),
            self.dir_a,
        );
        let along: Fixed = fx_sub(fx_add(self.origin_b, fx_mul(dist, self.dir_b)), slide);
        let up: Fixed = fx_add(self.origin_z, fx_mul(dist, fx_neg(self.dir_z)));
        if up < self.pos_z || up > fx_add(self.pos_z, ONE) {
            return None;
        }
        Some((dist, Vector2::new(fx_frac(along), fx_frac(up))))
    }
}

/// What a walk carries from cell to cell.
#[derive(Clone, Copy, Debug, PartialEq, Eq, Structural)]
pub struct Passage {
    /// Whether the ray has just gone through an open doorway.
    pub door: bool,
    /// The cell of that doorway.
    pub door_pos: Vector3f,
    /// The height of the last wall met.
    pub height: Fixed,
    /// Whether the ray has gone over a short wall.
    pub through: bool,
    /// The cell of the last wall met.
    pub pos: Vector3f,
}

/// What a ray finds in one cell: the end of the walk, or what to carry on.
pub enum Outcome {
    End(Hit),
    On(Passage),
}

impl Passage {
    /// What a walk starts with.
    pub open spec fn start() -> Passage {
        Passage {
            door: false,
            door_pos: Vector3f { x: 0, y: 0, z: 0 },
            height: ONE,
            through: false,
            pos: Vector3f { x: 0, y: 0, z: 0 },
        }
    }
}

/// The number of steps after which a walk through a map of `floors` floors
/// is given up.
pub open spec fn walk_budget(floors: usize) -> nat {
    (WALK_STEPS + floors) as nat
}

impl Ray {
    /// The ray as a wall across the second axis sees it.
    pub open spec fn across_y(self) -> Approach {
        Approach {
            origin_a: self.origin.y,
            origin_b: self.origin.x,
            origin_z: self.origin.z,
            pos_a: self.pos.y,
            pos_b: self.pos.x,
            pos_z: self.pos.z,
            dir_a: self.ray_dir.y,
            dir_b: self.ray_dir.x,
            dir_z: self.ray_dir.z,
            step_a: self.step.y,
            step_b: self.step.x,
        }
    }

    /// The ray as a wall across the first axis sees it.
    pub open spec fn across_x(self) -> Approach {
        Approach {
            origin_a: self.origin.x,
            origin_b: self.origin.y,
            origin_z: self.origin.z,
            pos_a: self.pos.x,
            pos_b: self.pos.y,
            pos_z: self.pos.z,
            dir_a: self.ray_dir.x,
            dir_b: self.ray_dir.y,
            dir_z: self.ray_dir.z,
            step_a: self.step.x,
            step_b: self.step.y,
        }
    }

    /// Where the ray meets the thin wall of its cell, if it does: the length
    /// of ray and the point of the texture.
    ///
    /// A wall on a north or south face lies across the second axis, any other
    /// across the first. The wall stands `depth` from the face it is named
    /// after. A ray that looks at that face from outside has the rest of the
    /// cell to cross first. An eye between the face and the wall looks at the
    /// wall from within the cell, and one that looks away from it sees
    /// nothing of it.
    pub open spec fn thin_hit(self, dir: Direction, slide: Fixed, depth: Fixed) -> Option<
        (Fixed, Vector2f),
    > {
        let rest = diff(ONE, depth);
        if dir.under_light() {
            let facing = (dir == Direction::North && self.ray_dir.y < 0) || (dir
                == Direction::South && self.ray_dir.y > 0);
            let d = if facing {
                rest
            } else {
                depth
            };
            let inside = self.origin.y >= self.pos.y && self.origin.y <= sum(self.pos.y, d);
            let corner = if self.origin.y > self.pos.y {
                sum(self.pos.y, ONE)
            } else {
                self.pos.y
            };
            let base = if !inside || (d > HALF && self.step.y < 0) {
                corner
            } else {
                diff(corner, ONE)
            };
            let limit = if dir == Direction::North {
                depth
            } else {
                rest
            };
            if inside && facing && frac_of(self.origin.y) > d {
                None
            } else {
                self.across_y().meet(base, d, limit, slide)
            }
        } else {
            let facing = (dir == Direction::East && self.ray_dir.x < 0) || (dir == Direction::West
                && self.ray_dir.x > 0);
            let d = if facing {
                rest
            } else {
                depth
            };
            let inside = self.origin.x >= self.pos.x && self.origin.x <= sum(self.pos.x, d);
            let corner = if self.origin.x < self.pos.x {
                diff(self.pos.x, ONE)
            } else {
                self.pos.x
            };
            let base = if !inside || (d > HALF && self.step.x < 0) {
                sum(corner, ONE)
            } else {
                corner
            };
            let limit = if dir == Direction::East {
                depth
            } else {
                rest
            };
            if inside && facing && frac_of(self.origin.x) > d {
                None
            } else {
                self.across_x().meet(base, d, limit, slide)
            }
        }
    }

    /// Where the ray meets the thin wall `cell` of its cell, if it does.
    fn grow_thin(&self, cell: &ThinObject) -> (r: Option<(Fixed, Vector2f)>)
        requires
            cell.valid(),
        ensures
            r == self.thin_hit(cell.thin_dir(), cell.thin_slide(), cell.thin_depth()),
            r matches Some(found) ==> 0 <= found.1.x < ONE && 0 <= found.1.y < ONE,
    {
        let dir: Direction = cell.dir();
        let slide: Fixed = cell.slide();
        let depth: Fixed = cell.depth();
        let rest: Fixed = fx_sub(ONE, depth);

        if dir.is_under_light() {
            let facing_north: bool = dir == Direction::North && self.ray_dir.y < 0;
            let facing_south: bool = dir == Direction::South && self.ray_dir.y > 0;
            let facing: bool = facing_north || facing_south;
            let d: Fixed = if facing { rest } else { depth };
            let inside: bool = self.origin.y >= self.pos.y && self.origin.y <= fx_add(
                self.pos.y,
                d,
            );
            if inside && facing && fx_frac(self.origin.y) > d {
                return None;
            }
            let corner: Fixed = if self.origin.y > self.pos.y {
                fx_add(self.pos.y, ONE)
            } else {
                self.pos.y
            };
            let base: Fixed = if !inside || (d > HALF && self.step.y < 0) {
                corner
            } else {
                fx_sub(corner, ONE)
            };
            let limit: Fixed = if dir == Direction::North { depth } else { rest };
            let view = Approach {
                origin_a: self.origin.y,
                origin_b: self.origin.x,
                origin_z: self.origin.z,
                pos_a: self.pos.y,
                pos_b: self.pos.x,
                pos_z: self.pos.z,
                dir_a: self.ray_dir.y,
                dir_b: self.ray_dir.x,
                dir_z: self.ray_dir.z,
                step_a: self.step.y,
                step_b: self.step.x,
            };
            view.find(base, d, limit, slide)
        } else {
            let facing_west: bool = dir == Direction::East && self.ray_dir.x < 0;
            let facing_east: bool = dir == Direction::West && self.ray_dir.x > 0;
            let facing: bool = facing_west || facing_east;
            let d: Fixed = if facing { rest } else { depth };
            let inside: bool = self.origin.x >= self.pos.x && self.origin.x <= fx_add(
                self.pos.x,
                d,
            );
            if inside && facing && fx_frac(self.origin.x) > d {
                return None;
            }
            let corner: Fixed = if self.origin.x < self.pos.x {
                fx_sub(self.pos.x, ONE)
            } else {
                self.pos.x
            };
            let base: Fixed = if !inside || (d > HALF && self.step.x < 0) {
                fx_add(corner, ONE)
            } else {
                corner
            };
            let limit: Fixed = if dir == Direction::East { depth } else { rest };
            let view = Approach {
                origin_a: self.origin.x,
                origin_b: self.origin.y,
                origin_z: self.origin.z,
                pos_a: self.pos.x,
                pos_b: self.pos.y,
                pos_z: self.pos.z,
                dir_a: self.ray_dir.x,
                dir_b: self.ray_dir.y,
                dir_z: self.ray_dir.z,
                step_a: self.step.x,
                step_b: self.step.y,
            };
            view.find(base, d, limit, slide)
        }
    }
}

impl Ray {
    /// The end of a ray that found nothing.
    pub open spec fn miss(self) -> Hit {
        Hit {
            value: None,
            pos: self.pos,
            dist: self.dist_spec(),
            dir: self.dir,
            texture_pos: Vector2 { x: 0, y: 0 },
        }
    }

    /// Whether the ray, in a cell of air, has left the floors of `map` or is
    /// further from its origin than [`RAY_RANGE`], level with the ground.
    pub open spec fn out_of_range(self, map: WorldMap) -> bool {
        let dx = diff(self.pos.x, self.origin.x);
        let dy = diff(self.pos.y, self.origin.y);
        ||| self.pos.z < 0
        ||| crate::fixed::floor_int_spec(self.pos.z as int) >= map.floors
        ||| sum(prod(dx, dx), prod(dy, dy)) > prod(RAY_RANGE, RAY_RANGE)
    }

    /// The hit on top of the short wall that the ray has just gone over, if
    /// it comes down on it: the ray is in a cell next to that wall, and came
    /// in from above or through a side below the wall's height. The hit has
    /// the wall's texture and faces up for a ray that looks down the screen.
    /// Its length is that of the ray up to the wall's top.
    pub open spec fn ceiling(self, map: WorldMap, passage: Passage) -> Option<Hit> {
        let came = self.texture_at(self.dir, self.dist_spec());
        if passage.through && (self.dir == Direction::Up || (self.dir.rank() < 5 && came.y
            <= passage.height)) && adjacent(passage.pos, self.pos) {
            let dir = if self.ray_dir.z > 0 {
                Direction::Up
            } else {
                Direction::Down
            };
            let dist = ratio(
                sum(
                    diff(diff(passage.pos.z, diff(ONE, passage.height)), self.origin.z),
                    ratio(diff(ONE, self.step.z), TWO),
                ),
                self.ray_dir.z,
            );
            Some(
                Hit {
                    value: Some(map.at_point(passage.pos).value_spec()),
                    pos: self.pos,
                    dist,
                    dir,
                    texture_pos: self.texture_at(dir, dist),
                },
            )
        } else {
            None
        }
    }

    /// What the ray finds in its cell.
    ///
    /// First the top of a short wall just passed, if the ray comes down on
    /// it. An open doorway is forgotten once the ray is no longer next to it
    /// on its floor. A ray that has crossed no face yet, because its eye is
    /// in the cell, counts as having come in through a side. Then, by the
    /// cell:
    /// - air ends the walk with a miss where the ray is out of range;
    /// - a wall of full height is hit, with the texture of a door frame
    ///   where the ray has come through a doorway;
    /// - a short wall is hit on its side at or below its height, and passed
    ///   over above it or from above;
    /// - a thin wall is hit where the ray meets its panel; an open door is
    ///   remembered as a doorway.
    #[verifier::opaque]
    pub open spec fn look(self, map: WorldMap, passage: Passage) -> Outcome {
        let door = passage.door && adjacent(passage.door_pos, self.pos) && self.pos.z
            == passage.door_pos.z;
        let passage = Passage { door, ..passage };
        let dist = self.dist_spec();
        let texture_pos = self.texture_at(self.dir, dist);
        match self.ceiling(map, passage) {
            Some(hit) => Outcome::End(hit),
            None => match map.at_point(self.pos) {
                Cell::Empty => {
                    if self.out_of_range(map) {
                        Outcome::End(self.miss())
                    } else {
                        Outcome::On(passage)
                    }
                },
                Cell::Wall { value, height } => {
                    let passage = Passage { pos: self.pos, height, ..passage };
                    let y = if texture_pos.y == 0 {
                        ONE
                    } else {
                        texture_pos.y
                    };
                    if height == ONE {
                        Outcome::End(
                            Hit {
                                value: Some(
                                    if door {
                                        (DOOR_VALUE + 2) as u32
                                    } else {
                                        value
                                    },
                                ),
                                pos: self.pos,
                                dist,
                                dir: self.dir,
                                texture_pos,
                            },
                        )
                    } else if (y > height && self.dir.rank() < 5) || self.dir == Direction::Up {
                        Outcome::On(Passage { through: true, ..passage })
                    } else {
                        Outcome::End(
                            Hit { value: Some(value), pos: self.pos, dist, dir: self.dir, texture_pos },
                        )
                    }
                },
                Cell::Thin(thin) => match self.thin_hit(
                    thin.thin_dir(),
                    thin.thin_slide(),
                    thin.thin_depth(),
                ) {
                    Some(found) => Outcome::End(
                        Hit {
                            value: Some(thin.thin_value()),
                            pos: self.pos,
                            dist: found.0,
                            dir: thin.thin_dir(),
                            texture_pos: found.1,
                        },
                    ),
                    None => Outcome::On(
                        if thin.thin_value() >= DOOR_VALUE {
                            Passage { door: true, door_pos: self.pos, ..passage }
                        } else {
                            passage
                        },
                    ),
                },
            },
        }
    }

    /// Where a walk of at most `budget` steps ends, and the ray at its end.
    /// The ray looks at its cell and moves on to the next until it finds an
    /// end; a walk that has used up its steps ends with a miss.
    pub open spec fn walk(self, map: WorldMap, passage: Passage, budget: nat) -> (Hit, Ray)
        decreases budget,
    {
        if budget == 0 {
            (self.miss(), self)
        } else {
            match self.look(map, passage) {
                Outcome::End(hit) => (hit, self),
                Outcome::On(carried) => self.grown().walk(map, carried, (budget - 1) as nat),
            }
        }
    }

    fn found_nothing(&self) -> (r: Hit)
        ensures
            r == self.miss(),
            r.wf(),
    {
        Hit {
            value: None,
            pos: self.pos,
            dist: self.compute_dist(),
            dir: self.dir,
            texture_pos: Vector2f::zero(),
        }
    }

    fn is_out_of_range(&self, map: &WorldMap) -> (r: bool)
        ensures
            r == self.out_of_range(*map),
    {
        let dx: Fixed = fx_sub(self.pos.x, self.origin.x);
        let dy: Fixed = fx_sub(self.pos.y, self.origin.y);
        self.pos.z < 0 || crate::fixed::fx_floor_int(self.pos.z) as i128 >= map.depth() as i128
            || fx_add(fx_mul(dx, dx), fx_mul(dy, dy)) > fx_mul(RAY_RANGE, RAY_RANGE)
    }

    /// What the ray finds in its cell.
    fn look_around(&self, map: &WorldMap, passage: Passage) -> (r: Outcome)
        requires
            map.wf(),
        ensures
            r == self.look(*map, passage),
            r matches Outcome::End(hit) ==> hit.wf(),
    {
        reveal(Ray::look);
        let dist: Fixed = self.compute_dist();
        let texture_pos: Vector2f = self.compute_texture_pos(&self.dir, dist);
        let mut passage: Passage = passage;

        let level: bool = self.dir.index() < 5;
        if passage.through && (self.dir == Direction::Up || (level && texture_pos.y
            <= passage.height)) && Self::is_block_adjacent(passage.pos, self.pos) {
            let dir: Direction = if self.ray_dir.z > 0 {
                Direction::Up
            } else {
                Direction::Down
            };
            let dist: Fixed = fx_div(
                fx_add(
                    fx_sub(fx_sub(passage.pos.z, fx_sub(ONE, passage.height)), self.origin.z),
                    fx_div(fx_sub(ONE, self.step.z), TWO),
                ),
                self.ray_dir.z,
            );
            let texture_pos: Vector2f = self.compute_texture_pos(&dir, dist);
            return Outcome::End(
                Hit { value: Some(map.get(&passage.pos).value()), pos: self.pos, dist, dir, texture_pos },
            );
        }
        if passage.door && (!Self::is_block_adjacent(passage.door_pos, self.pos) || self.pos.z
            != passage.door_pos.z) {
            passage.door = false;
        }
        match map.get(&self.pos) {
            Cell::Empty => {
                if self.is_out_of_range(map) {
                    return Outcome::End(self.found_nothing());
                }
            },
            Cell::Wall { value, height } => {
                passage.pos = self.pos;
                passage.height = *height;
                if passage.height != ONE {
                    let mut y: Fixed = texture_pos.y;

                    if y == 0 {
                        y = ONE;
                    }
                    if (y > passage.height && level) || self.dir == Direction::Up {
                        passage.through = true;
                    } else {
                        return Outcome::End(
                            Hit { value: Some(*value), pos: self.pos, dist, dir: self.dir, texture_pos },
                        );
                    }
                } else {
                    let value: u32 = if passage.door {
                        DOOR_VALUE + 2
                    } else {
                        *value
                    };

                    return Outcome::End(
                        Hit { value: Some(value), pos: self.pos, dist, dir: self.dir, texture_pos },
                    );
                }
            },
            Cell::Thin(thin) => {
                if let Some((dist, texture_pos)) = self.grow_thin(thin) {
                    return Outcome::End(
                        Hit {
                            value: Some(thin.value()),
                            pos: self.pos,
                            dist,
                            dir: thin.dir(),
                            texture_pos,
                        },
                    );
                }
                if thin.value() >= DOOR_VALUE {
                    passage.door = true;
                    passage.door_pos = self.pos;
                }
            },
        }
        Outcome::On(passage)
    }

    /// Walks the ray through `map` to the first thing it hits, and leaves it
    /// in the cell where it ended.
    ///
    /// The walk is given up, as a miss, after one step for each floor of the
    /// map and [`WALK_STEPS`] more.
    pub fn cast(&mut self, map: &WorldMap) -> (hit: Hit)
        requires
            map.wf(),
        ensures
            (hit, *final(self)) == old(self).walk(*map, Passage::start(), walk_budget(map.floors)),
            hit.wf(),
            final(self).portal_recursion == old(self).portal_recursion,
    {
        let mut passage: Passage = Passage {
            door: false,
            door_pos: Vector3f::zero(),
            height: ONE,
            through: false,
            pos: Vector3f::zero(),
        };
        let mut left: u128 = WALK_STEPS as u128 + map.depth() as u128;

        while left > 0
            invariant
                map.wf(),
                old(self).walk(*map, Passage::start(), walk_budget(map.floors)) == self.walk(
                    *map,
                    passage,
                    left as nat,
                ),
                self.portal_recursion == old(self).portal_recursion,
            decreases left,
        {
            match self.look_around(map, passage) {
                Outcome::End(hit) => {
                    return hit;
                },
                Outcome::On(carried) => {
                    passage = carried;
                },
            }
            self.grow();
            left = left - 1;
        }
        self.found_nothing()
    }

    /// The ray after `budget` steps at most, stopped as soon as it is in the
    /// column of cells above and below `cell`, and whether it got there.
    pub open spec fn sought(self, cell: Vector3f, budget: nat) -> (bool, Ray)
        decreases budget,
    {
        if self.pos.x == cell.x && self.pos.y == cell.y {
            (true, self)
        } else if budget == 0 {
            (false, self)
        } else {
            self.grown().sought(cell, (budget - 1) as nat)
        }
    }

    /// The ray on the far side of a portal, from `source` to `dest`, and
    /// whether it went through.
    ///
    /// A ray that has passed [`PORTAL_RECURSION_LIMIT`] portals stays as it
    /// is. Any other counts one portal more, and goes on from where its
    /// origin lies on the far side, turned as the pair of portals turns,
    /// its height carried over from floor to floor. It is then walked into
    /// the cell of `dest`, in at most [`WALK_STEPS`] steps, once more if it is
    /// on another floor, and once more out of that cell. A ray that does not
    /// reach the cell has not gone through.
    #[verifier::opaque]
    pub open spec fn through_portal(self, dest: Portal, source: Portal) -> (bool, Ray) {
        if self.portal_recursion >= PORTAL_RECURSION_LIMIT {
            (false, self)
        } else {
            let counted = Ray { portal_recursion: (self.portal_recursion + 1) as usize, ..self };
            let new_origin = Vector3f {
                x: dest.link_x_spec(source, self.origin) as i64,
                y: dest.link_y_spec(source, self.origin) as i64,
                z: diff(sum(diff(dest.pos.z, source.pos.z), self.origin.z), HALF),
            };
            let moved = counted.relocated(
                new_origin,
                (-(crate::fixed::QUARTER_TURN * dest.link_turns(source))) as i64,
            );
            let (there, arrived) = moved.sought(dest.pos, WALK_STEPS as nat);
            if !there {
                (false, arrived)
            } else if arrived.pos.z != dest.pos.z {
                (true, arrived.grown().grown())
            } else {
                (true, arrived.grown())
            }
        }
    }

    /// Takes the ray through a portal, from `source` to `dest`, and says
    /// whether it went through.
    pub fn pass_through_portal(&mut self, dest: &Portal, source: &Portal) -> (r: bool)
        ensures
            (r, *final(self)) == old(self).through_portal(*dest, *source),
            r ==> final(self).portal_recursion == old(self).portal_recursion + 1,
            r ==> old(self).portal_recursion < PORTAL_RECURSION_LIMIT,
            final(self).portal_recursion <= PORTAL_RECURSION_LIMIT || final(self).portal_recursion
                == old(self).portal_recursion,
    {
        reveal(Ray::through_portal);
        if self.portal_recursion >= PORTAL_RECURSION_LIMIT {
            return false;
        }
        self.portal_recursion += 1;

        let new_origin: Vector3f = Vector3f::new(
            dest.link_x(source, &self.origin),
            dest.link_y(source, &self.origin),
            fx_sub(fx_add(fx_sub(dest.pos.z, source.pos.z), self.origin.z), HALF),
        );

        self.relocate(new_origin, dest.link_dir(source));
        let ghost moved: Ray = *self;
        let mut left: u64 = WALK_STEPS;
        while (self.pos.x != dest.pos.x || self.pos.y != dest.pos.y) && left > 0
            invariant
                moved.sought(dest.pos, WALK_STEPS as nat) == self.sought(dest.pos, left as nat),
                self.portal_recursion == moved.portal_recursion,
            decreases left,
        {
            self.grow();
            left = left - 1;
        }
        if self.pos.x != dest.pos.x || self.pos.y != dest.pos.y {
            return false;
        }
        if self.pos.z != dest.pos.z {
            self.grow();
        }
        self.grow();
        true
    }
}

/// A ray meets a thin wall only where it crosses the wall's plane inside
/// the cell.
///
/// Where a ray meets the thin wall of its cell, its direction has a
/// component across the wall, so that its length up to the wall is a
/// quotient by a number that is not zero; where the wall's plane is crossed
/// lies in the ray's cell along the wall; and the point of the texture lies
/// in the unit square.
pub proof fn lemma_thin_hit_crosses_the_wall(ray: Ray, dir: Direction, slide: Fixed, depth: Fixed)
    ensures
        ray.thin_hit(dir, slide, depth) matches Some(found) ==> {
            &&& dir.under_light() ==> ray.ray_dir.y != 0
            &&& !dir.under_light() ==> ray.ray_dir.x != 0
            &&& slide > 0
            &&& 0 <= found.1.x < ONE
            &&& 0 <= found.1.y < ONE
        },
        (dir.under_light() && ray.ray_dir.y == 0) ==> ray.thin_hit(dir, slide, depth) is None,
        (!dir.under_light() && ray.ray_dir.x == 0) ==> ray.thin_hit(dir, slide, depth) is None,
        slide <= 0 ==> ray.thin_hit(dir, slide, depth) is None,
{
}

/// The furthest from the origin of the grid, along each level axis, that a
/// ray and its origin may be for what is said of the length of a hit.
pub const NEAR: Fixed = 1_000_000_000_000;

/// Whether the ray and its origin are within [`NEAR`] of the grid's origin
/// along both level axes.
pub open spec fn near(ray: Ray) -> bool {
    &&& -NEAR <= ray.origin.x <= NEAR
    &&& -NEAR <= ray.origin.y <= NEAR
    &&& -NEAR <= ray.pos.x <= NEAR
    &&& -NEAR <= ray.pos.y <= NEAR
}

/// A quotient by a number that is not zero, taken times that number, is no
/// larger than what was divided; and the quotient of a number within three
/// times [`NEAR`] is within the bounds of a real.
proof fn lemma_back_and_forth(n: Fixed, by: Fixed)
    requires
        by != 0,
        -3 * NEAR <= n <= 3 * NEAR,
    ensures
        -BOUND < ratio(n, by) < BOUND,
        -3 * NEAR <= prod(by, ratio(n, by)) <= 3 * NEAR,
        n >= 0 ==> 0 <= prod(by, ratio(n, by)) <= n,
        n <= 0 ==> n <= prod(by, ratio(n, by)) <= 0,
{
    let a = crate::fixed::mag(n as int);
    let b = crate::fixed::mag(by as int);
    let q = (a * 1_000_000) / b;
    assert(a * ONE == a * 1_000_000);
    assert(0 <= q <= a * 1_000_000 && 0 <= b * q <= a * 1_000_000) by (nonlinear_arith)
        requires
            a >= 0,
            b >= 1,
            q == (a * 1_000_000) / b,
    ;
    assert(0 <= (b * q) / 1_000_000 <= a);
    let r = ratio(n, by);
    if (n >= 0) == (by > 0) {
        assert(r == q);
    } else {
        assert(r == -q);
    }
    if n >= 0 {
        assert(by * r == b * q) by (nonlinear_arith)
            requires
                (by == b && r == q) || (by == -b && r == -q),
        ;
    } else {
        assert(by * r == -(b * q)) by (nonlinear_arith)
            requires
                (by == -b && r == q) || (by == b && r == -q),
        ;
    }
}

/// The length at which a ray within reach meets a thin wall is a number
/// within the bounds of a real: no quotient by zero and no sum that ran over
/// stands behind it.
pub proof fn lemma_thin_hit_is_finite(ray: Ray, dir: Direction, slide: Fixed, depth: Fixed)
    requires
        near(ray),
        0 <= depth <= ONE,
        ray.step.x == ONE || ray.step.x == -ONE,
        ray.step.y == ONE || ray.step.y == -ONE,
    ensures
        ray.thin_hit(dir, slide, depth) matches Some(found) ==> -BOUND < found.0 < BOUND,
{
    let rest = diff(ONE, depth);
    if dir.under_light() {
        let view = ray.across_y();
        if view.dir_a != 0 {
            let facing = (dir == Direction::North && ray.ray_dir.y < 0) || (dir == Direction::South
                && ray.ray_dir.y > 0);
            let d = if facing {
                rest
            } else {
                depth
            };
            let inside = ray.origin.y >= ray.pos.y && ray.origin.y <= sum(ray.pos.y, d);
            let corner = if ray.origin.y > ray.pos.y {
                sum(ray.pos.y, ONE)
            } else {
                ray.pos.y
            };
            let base = if !inside || (d > HALF && ray.step.y < 0) {
                corner
            } else {
                diff(corner, ONE)
            };
            lemma_meet_is_finite(view, base, d);
        }
    } else {
        let view = ray.across_x();
        if view.dir_a != 0 {
            let facing = (dir == Direction::East && ray.ray_dir.x < 0) || (dir == Direction::West
                && ray.ray_dir.x > 0);
            let d = if facing {
                rest
            } else {
                depth
            };
            let inside = ray.origin.x >= ray.pos.x && ray.origin.x <= sum(ray.pos.x, d);
            let corner = if ray.origin.x < ray.pos.x {
                diff(ray.pos.x, ONE)
            } else {
                ray.pos.x
            };
            let base = if !inside || (d > HALF && ray.step.x < 0) {
                sum(corner, ONE)
            } else {
                corner
            };
            lemma_meet_is_finite(view, base, d);
        }
    }
}

/// The length that [`Approach::meet`] finds from a plane within reach is
/// within the bounds of a real.
proof fn lemma_meet_is_finite(view: Approach, base: Fixed, d: Fixed)
    requires
        view.dir_a != 0,
        -NEAR <= view.origin_a <= NEAR,
        -NEAR - ONE <= base <= NEAR + ONE,
        0 <= d <= ONE,
        view.step_a == ONE || view.step_a == -ONE,
    ensures
        ({
            let mult = ratio(diff(base, view.origin_a), view.dir_a);
            let start_a = sum(view.origin_a, prod(view.dir_a, mult));
            let dist = ratio(diff(sum(start_a, prod(view.step_a, d)), view.origin_a), view.dir_a);
            -BOUND < dist < BOUND
        }),
{
    let n = diff(base, view.origin_a);
    lemma_back_and_forth(n, view.dir_a);
    let mult = ratio(n, view.dir_a);
    let back = prod(view.dir_a, mult);
    let start_a = sum(view.origin_a, back);
    let step = prod(view.step_a, d);
    assert(-ONE <= step <= ONE) by {
        assert((d * 1_000_000) / 1_000_000 == d);
        assert(ONE * d == d * 1_000_000 && (-ONE) * d == -(d * 1_000_000));
    }
    let m = diff(sum(start_a, step), view.origin_a);
    assert(-3 * NEAR <= m <= 3 * NEAR);
    lemma_back_and_forth(m, view.dir_a);
}

/// A ray goes over a short wall that it meets above its top.
///
/// Take a ray that has come through a side into the cell of a wall lower
/// than 1, at a height above the wall's, and that does not come down on a
/// wall passed before. It finds no end there: it goes on, and carries with it
/// that it has gone over this wall, and how high the wall is.
pub proof fn lemma_short_wall_is_passed(ray: Ray, map: WorldMap, passage: Passage, value: u32, height: Fixed)
    requires
        map.at_point(ray.pos) == (Cell::Wall { value, height }),
        height != ONE,
        ray.dir.is_side_spec(),
        ray.texture_at(ray.dir, ray.dist_spec()).y > height,
        ray.ceiling(map, passage) is None,
    ensures
        ray.look(map, passage) matches Outcome::On(carried) && carried.through && carried.pos
            == ray.pos && carried.height == height,
{
    reveal(Ray::look);
}

/// A ray that has gone over a short wall and comes down on it hits its top.
///
/// Take a ray that has gone over a wall and is now in a cell next to it,
/// having come in from above, or through a side at a height not above the
/// wall's. It ends there: with the texture of the wall it has gone over, on
/// a face that looks up for a ray that looks down the screen and down for
/// any other, at the length at which the ray is level with the wall's top.
pub proof fn lemma_ray_lands_on_top(ray: Ray, map: WorldMap, passage: Passage)
    requires
        passage.through,
        adjacent(passage.pos, ray.pos),
        ray.dir == Direction::Up || (ray.dir.is_side_spec() && ray.texture_at(
            ray.dir,
            ray.dist_spec(),
        ).y <= passage.height),
    ensures
        ray.look(map, passage) matches Outcome::End(hit) && hit.value == Some(
            map.at_point(passage.pos).value_spec(),
        ) && hit.pos == ray.pos && hit.dir == (if ray.ray_dir.z > 0 {
            Direction::Up
        } else {
            Direction::Down
        }) && hit.dist == ratio(
            sum(
                diff(diff(passage.pos.z, diff(ONE, passage.height)), ray.origin.z),
                ratio(diff(ONE, ray.step.z), TWO),
            ),
            ray.ray_dir.z,
        ),
{
    reveal(Ray::look);
}

} // verus!
