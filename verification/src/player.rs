//! The player: input, gravity, collision and interaction.
use vstd::prelude::*;
use crate::cell::{Cell, Interaction, Thin};
use crate::direction::Direction;
use crate::fixed::{Fixed, ONE, QUARTER_TURN, sum, diff, prod, floor_of, frac_of, fx_add, fx_sub,
    fx_mul, fx_floor, fx_frac};
use crate::map::{WorldMap, lemma_whole_pairs, first_pair_at};
use crate::rayobject::{Hit, Passage, Ray, walk_budget};
use crate::trig::lemma_quarter_turns_exact;
use crate::vectors::{Vector2, Vector2f, Vector3f};

verus! {

/// A key that moves the player forward.
pub const KEY_FORWARD: u32 = 90;

/// The other key that moves the player forward.
pub const KEY_FORWARD_ALT: u32 = 87;

/// The key that moves the player backward.
pub const KEY_BACKWARD: u32 = 83;

/// A key that turns the camera to the left.
pub const KEY_LEFT: u32 = 81;

/// The other key that turns the camera to the left.
pub const KEY_LEFT_ALT: u32 = 65;

/// The key that turns the camera to the right.
pub const KEY_RIGHT: u32 = 68;

/// The key that makes the player jump.
pub const KEY_JUMP: u32 = 32;

/// The key that sets off what the player looks at.
pub const KEY_INTERACT: u32 = 70;

/// The walking speed, in cells per second.
pub const WALK_SPEED: Fixed = 4_000_000;

/// The upward speed at the start of a jump.
pub const JUMP_SPEED: Fixed = 1_650_000;

/// The turning speed, in radians per second.
pub const TURN_SPEED: Fixed = 3_500_000;

/// The pull of gravity on the upward speed, per second.
pub const GRAVITY: Fixed = -3_800_000;

/// The length of the camera plane, which sets the field of view.
pub const PLANE_LENGTH: Fixed = 660_000;

/// How far the player reaches to set something off.
pub const REACH: Fixed = 1_500_000;

/// The time one frame of the walk animation is shown.
pub const FRAME_TIME: Fixed = 160_000;

/// What the player has asked for and the world has not answered yet.
#[derive(Clone, Copy, Debug, PartialEq, Eq, Structural)]
pub enum Action {
    Idle,
    Interact,
}

/// The player and the camera.
#[derive(Clone, Copy, Debug, PartialEq, Eq)]
pub struct Player {
    /// Where the player stands.
    pub pos: Vector3f,
    /// The heading of the camera.
    pub dir: Vector2f,
    /// The camera plane, at a right angle to the heading; its length sets the
    /// field of view.
    pub plane: Vector2f,
    /// The frame of the walk animation: 0 at rest, 1 to 4 while walking.
    pub frame: u32,
    /// The time since the walk animation last moved on.
    pub delta: Fixed,
    /// The pull on the vertical speed, per second.
    pub gravity: Fixed,
    /// The speed forward in `x` and upward in `y`.
    pub velocity: Vector2f,
    /// The turning speed in `x`, in radians per second.
    pub rotation: Vector2f,
    pub action: Action,
}

/// Where a step along one axis ends that starts in or enters a cell with a
/// thin wall.
///
/// `from` is the coordinate before the step and `to` the one after it, `side`
/// the other level coordinate of the player, and `cell` the whole coordinate
/// of the wall's cell. A wall that lies along the axis does not stand in the
/// way (`along`). Any other stands at `offset` into its cell, and stops a
/// step that crosses it where the player is level with the part that the
/// panel covers, which is `slide` wide.
pub open spec fn thin_step(
    from: Fixed,
    to: Fixed,
    side: Fixed,
    cell: Fixed,
    along: bool,
    offset: Fixed,
    slide: Fixed,
) -> Fixed {
    let limit = sum(cell, offset);
    if along {
        to
    } else if ((from > limit && to < limit) || (from < limit && to > limit)) && frac_of(side)
        < slide {
        from
    } else {
        to
    }
}

/// Where a step along one axis ends that meets a thin wall.
fn step_by_thin(
    from: Fixed,
    to: Fixed,
    side: Fixed,
    cell: Fixed,
    along: bool,
    offset: Fixed,
    slide: Fixed,
) -> (r: Fixed)
    ensures
        r == thin_step(from, to, side, cell, along, offset, slide),
{
    if along {
        to
    } else {
        let limit: Fixed = fx_add(cell, offset);
        let relative: Fixed = fx_frac(side);
        if ((from > limit && to < limit) || (from < limit && to > limit)) && relative < slide {
            from
        } else {
            to
        }
    }
}

/// How far a thin wall on the face `dir` stands into its cell along the
/// first axis.
pub open spec fn offset_x(dir: Direction, depth: Fixed) -> Fixed {
    if dir == Direction::East {
        depth
    } else {
        diff(ONE, depth)
    }
}

/// How far a thin wall on the face `dir` stands into its cell along the
/// second axis.
pub open spec fn offset_y(dir: Direction, depth: Fixed) -> Fixed {
    if dir == Direction::North {
        depth
    } else {
        diff(ONE, depth)
    }
}

impl Player {
    /// The player at `pos`, at rest, looking along the second axis, the
    /// camera plane against the first.
    pub open spec fn at(pos: Vector3f) -> Player {
        Player {
            pos,
            dir: Vector2 { x: 0, y: ONE },
            plane: Vector2 { x: -660_000i64, y: 0 },
            frame: 0,
            delta: 0,
            gravity: GRAVITY,
            velocity: Vector2 { x: 0, y: 0 },
            rotation: Vector2 { x: 0, y: 0 },
            action: Action::Idle,
        }
    }

    /// The player at `pos`, at rest, the camera turned a quarter turn from
    /// the first axis: it looks along the second axis.
    pub fn new(pos: Vector3f) -> (r: Player)
        ensures
            r == Player::at(pos),
    {
        let mut player = Player {
            pos,
            dir: Vector2::new(ONE, 0),
            plane: Vector2::new(0, PLANE_LENGTH),
            frame: 0,
            delta: 0,
            gravity: GRAVITY,
            velocity: Vector2f::zero(),
            rotation: Vector2f::zero(),
            action: Action::Idle,
        };
        proof {
            lemma_quarter_turns_exact(1);
        }
        player.update_dir(QUARTER_TURN, ONE);
        player
    }

    /// The player after the key `key` went down (`pressed`) or up.
    ///
    /// A walking key sets the forward speed while it is down, a turning key
    /// the turning speed. The jump key sets the upward speed of a player
    /// that has none. The interaction key, going down, asks for an
    /// interaction. Any other key changes nothing.
    pub open spec fn after_input(self, key: u32, pressed: bool) -> Player {
        if key == KEY_FORWARD || key == KEY_FORWARD_ALT {
            Player {
                velocity: Vector2 {
                    x: if pressed {
                        WALK_SPEED
                    } else {
                        0
                    },
                    y: self.velocity.y,
                },
                ..self
            }
        } else if key == KEY_BACKWARD {
            Player {
                velocity: Vector2 {
                    x: if pressed {
                        -4_000_000i64
                    } else {
                        0
                    },
                    y: self.velocity.y,
                },
                ..self
            }
        } else if key == KEY_JUMP {
            if pressed && self.velocity.y == 0 {
                Player { velocity: Vector2 { x: self.velocity.x, y: JUMP_SPEED }, ..self }
            } else {
                self
            }
        } else if key == KEY_LEFT || key == KEY_LEFT_ALT {
            Player {
                rotation: Vector2 {
                    x: if pressed {
                        -3_500_000i64
                    } else {
                        0
                    },
                    y: self.rotation.y,
                },
                ..self
            }
        } else if key == KEY_RIGHT {
            Player {
                rotation: Vector2 {
                    x: if pressed {
                        TURN_SPEED
                    } else {
                        0
                    },
                    y: self.rotation.y,
                },
                ..self
            }
        } else if key == KEY_INTERACT && pressed {
            Player { action: Action::Interact, ..self }
        } else {
            self
        }
    }

    /// Takes note of a key going down (`pressed`) or up.
    pub fn handle_inputs(&mut self, key: u32, pressed: bool)
        ensures
            *final(self) == old(self).after_input(key, pressed),
    {
        if key == KEY_FORWARD || key == KEY_FORWARD_ALT {
            self.velocity.x = if pressed { WALK_SPEED } else { 0 };
        } else if key == KEY_BACKWARD {
            self.velocity.x = if pressed { -WALK_SPEED } else { 0 };
        } else if key == KEY_JUMP {
            if pressed && self.velocity.y == 0 {
                self.velocity.y = JUMP_SPEED;
            }
        } else if key == KEY_LEFT || key == KEY_LEFT_ALT {
            self.rotation.x = if pressed { -TURN_SPEED } else { 0 };
        } else if key == KEY_RIGHT {
            self.rotation.x = if pressed { TURN_SPEED } else { 0 };
        } else if key == KEY_INTERACT {
            if pressed {
                self.action = Action::Interact;
            }
        }
    }

    /// The player after gravity has acted for `delta` seconds.
    ///
    /// The player would rise or fall by the upward speed, which gravity then
    /// lowers. Below the ground the player lands on the ground. Inside a
    /// short wall the player lands on its top when not above it. In air the
    /// player lands on the top of what is in the cell fallen into, when not
    /// above it. A landing ends the upward speed.
    pub open spec fn after_gravity(self, map: WorldMap, delta: Fixed) -> Player {
        let future_z = sum(self.pos.z, prod(self.velocity.y, delta));
        let pulled = sum(self.velocity.y, prod(self.gravity, delta));
        let under = map.at_point(Vector3f { x: self.pos.x, y: self.pos.y, z: future_z });
        let (z, speed) = if future_z < 0 {
            (0i64, 0i64)
        } else {
            match map.at_point(self.pos) {
                Cell::Wall { value, height } => {
                    let top = sum(floor_of(self.pos.z), height);
                    if future_z <= top {
                        (top, 0i64)
                    } else {
                        (future_z, pulled)
                    }
                },
                Cell::Empty => {
                    let top = sum(floor_of(future_z), under.height_spec());
                    if future_z <= top {
                        (top, 0i64)
                    } else {
                        (future_z, pulled)
                    }
                },
                Cell::Thin(thin) => (future_z, pulled),
            }
        };
        Player {
            pos: Vector3f { z, ..self.pos },
            velocity: Vector2 { x: self.velocity.x, y: speed },
            ..self
        }
    }

    /// Lets gravity act on the player for `delta` seconds.
    fn update_gravity(&mut self, map: &WorldMap, delta: Fixed)
        requires
            map.wf(),
        ensures
            *final(self) == old(self).after_gravity(*map, delta),
    {
        let mut future_z: Fixed = fx_add(self.pos.z, fx_mul(self.velocity.y, delta));
        let inside_wall: &Cell = map.get(&self.pos);
        let future_under_wall: &Cell = map.get(&Vector3f::new(self.pos.x, self.pos.y, future_z));

        self.velocity.y = fx_add(self.velocity.y, fx_mul(self.gravity, delta));
        if future_z < 0 {
            self.velocity.y = 0;
            self.pos.z = 0;
        } else {
            match inside_wall {
                Cell::Wall { value: _, height } => {
                    let top: Fixed = fx_add(fx_floor(self.pos.z), *height);
                    if future_z <= top {
                        future_z = top;
                        self.velocity.y = 0;
                    }
                },
                Cell::Empty => {
                    let top: Fixed = fx_add(fx_floor(future_z), future_under_wall.height());
                    if future_z <= top {
                        future_z = top;
                        self.velocity.y = 0;
                    }
                },
                Cell::Thin(_) => {},
            }
            self.pos.z = future_z;
        }
    }

    /// The player turned by `new_rotation` radians per second for `delta`
    /// seconds: heading and camera plane turn together.
    pub open spec fn turned(self, new_rotation: Fixed, delta: Fixed) -> Player {
        let angle = prod(new_rotation, delta);
        Player { dir: self.dir.rotated(angle as int), plane: self.plane.rotated(angle as int), ..self }
    }

    /// Turns the camera at `new_rotation` radians per second for `delta`
    /// seconds.
    fn update_dir(&mut self, new_rotation: Fixed, delta: Fixed)
        ensures
            *final(self) == old(self).turned(new_rotation, delta),
    {
        let angle: Fixed = fx_mul(new_rotation, delta);
        self.dir.rotate(angle);
        self.plane.rotate(angle);
    }

    /// The first coordinate after a step to `new_x`, by what stands in the
    /// way: nothing in air, unless the player stands in a cell with a thin
    /// wall; a wall unless the player is at or above its top; a thin wall as
    /// [`thin_step`] says.
    pub open spec fn stepped_x(self, map: WorldMap, new_x: Fixed) -> Fixed {
        match map.at_point(Vector3f { x: new_x, y: self.pos.y, z: self.pos.z }) {
            Cell::Empty => match map.at_point(self.pos) {
                Cell::Thin(thin) => thin_step(
                    self.pos.x,
                    new_x,
                    self.pos.y,
                    floor_of(self.pos.x),
                    thin.thin_dir().under_light(),
                    offset_x(thin.thin_dir(), thin.thin_depth()),
                    thin.thin_slide(),
                ),
                _ => new_x,
            },
            Cell::Wall { value, height } => {
                if self.pos.z >= sum(floor_of(self.pos.z), height) {
                    new_x
                } else {
                    self.pos.x
                }
            },
            Cell::Thin(thin) => thin_step(
                self.pos.x,
                new_x,
                self.pos.y,
                floor_of(new_x),
                thin.thin_dir().under_light(),
                offset_x(thin.thin_dir(), thin.thin_depth()),
                thin.thin_slide(),
            ),
        }
    }

    /// The second coordinate after a step to `new_y`, by what stands in the
    /// way, as [`Player::stepped_x`] for the other axis.
    pub open spec fn stepped_y(self, map: WorldMap, new_y: Fixed) -> Fixed {
        match map.at_point(Vector3f { x: self.pos.x, y: new_y, z: self.pos.z }) {
            Cell::Empty => match map.at_point(self.pos) {
                Cell::Thin(thin) => thin_step(
                    self.pos.y,
                    new_y,
                    self.pos.x,
                    floor_of(self.pos.y),
                    !thin.thin_dir().under_light(),
                    offset_y(thin.thin_dir(), thin.thin_depth()),
                    thin.thin_slide(),
                ),
                _ => new_y,
            },
            Cell::Wall { value, height } => {
                if self.pos.z >= sum(floor_of(self.pos.z), height) {
                    new_y
                } else {
                    self.pos.y
                }
            },
            Cell::Thin(thin) => thin_step(
                self.pos.y,
                new_y,
                self.pos.x,
                floor_of(new_y),
                !thin.thin_dir().under_light(),
                offset_y(thin.thin_dir(), thin.thin_depth()),
                thin.thin_slide(),
            ),
        }
    }

    /// Where a step along the first axis to `new_x` ends that meets the thin
    /// wall of the cell at `x_coord`.
    fn move_x_in_thin_wall(&self, x_coord: Fixed, new_x: Fixed, dir: Direction, slide: Fixed, depth: Fixed)
        -> (r: Fixed)
        ensures
            r == thin_step(
                self.pos.x,
                new_x,
                self.pos.y,
                x_coord,
                dir.under_light(),
                offset_x(dir, depth),
                slide,
            ),
    {
        step_by_thin(
            self.pos.x,
            new_x,
            self.pos.y,
            x_coord,
            dir.is_under_light(),
            if dir == Direction::East { depth } else { fx_sub(ONE, depth) },
            slide,
        )
    }

    /// Where a step along the second axis to `new_y` ends that meets the
    /// thin wall of the cell at `y_coord`.
    fn move_y_in_thin_wall(&self, y_coord: Fixed, new_y: Fixed, dir: Direction, slide: Fixed, depth: Fixed)
        -> (r: Fixed)
        ensures
            r == thin_step(
                self.pos.y,
                new_y,
                self.pos.x,
                y_coord,
                !dir.under_light(),
                offset_y(dir, depth),
                slide,
            ),
    {
        step_by_thin(
            self.pos.y,
            new_y,
            self.pos.x,
            y_coord,
            !dir.is_under_light(),
            if dir == Direction::North { depth } else { fx_sub(ONE, depth) },
            slide,
        )
    }

    /// Where a step along the first axis to `new_x` ends.
    fn move_x(&self, map: &WorldMap, new_x: Fixed) -> (r: Fixed)
        requires
            map.wf(),
        ensures
            r == self.stepped_x(*map, new_x),
    {
        match map.get(&Vector3f::new(new_x, self.pos.y, self.pos.z)) {
            Cell::Empty => {
                match map.get(&self.pos) {
                    Cell::Thin(thin) => self.move_x_in_thin_wall(
                        fx_floor(self.pos.x),
                        new_x,
                        thin.dir(),
                        thin.slide(),
                        thin.depth(),
                    ),
                    _ => new_x,
                }
            },
            Cell::Wall { value: _, height } => {
                if self.pos.z >= fx_add(fx_floor(self.pos.z), *height) {
                    new_x
                } else {
                    self.pos.x
                }
            },
            Cell::Thin(thin) => self.move_x_in_thin_wall(
                fx_floor(new_x),
                new_x,
                thin.dir(),
                thin.slide(),
                thin.depth(),
            ),
        }
    }

    /// Where a step along the second axis to `new_y` ends.
    fn move_y(&self, map: &WorldMap, new_y: Fixed) -> (r: Fixed)
        requires
            map.wf(),
        ensures
            r == self.stepped_y(*map, new_y),
    {
        match map.get(&Vector3f::new(self.pos.x, new_y, self.pos.z)) {
            Cell::Empty => {
                match map.get(&self.pos) {
                    Cell::Thin(thin) => self.move_y_in_thin_wall(
                        fx_floor(self.pos.y),
                        new_y,
                        thin.dir(),
                        thin.slide(),
                        thin.depth(),
                    ),
                    _ => new_y,
                }
            },
            Cell::Wall { value: _, height } => {
                if self.pos.z >= fx_add(fx_floor(self.pos.z), *height) {
                    new_y
                } else {
                    self.pos.y
                }
            },
            Cell::Thin(thin) => self.move_y_in_thin_wall(
                fx_floor(new_y),
                new_y,
                thin.dir(),
                thin.slide(),
                thin.depth(),
            ),
        }
    }

    /// The cell that a step of `delta` seconds leads into, on the player's
    /// floor.
    pub open spec fn ahead(self, delta: Fixed) -> Vector3f {
        let speed = prod(self.velocity.x, delta);
        Vector3f {
            x: floor_of(sum(self.pos.x, prod(self.dir.x, speed))),
            y: floor_of(sum(self.pos.y, prod(self.dir.y, speed))),
            z: floor_of(self.pos.z),
        }
    }

    /// The player after walking for `delta` seconds.
    ///
    /// Where the step leads into the cell of a portal with both sides, the
    /// player comes out on the far side: turned as the pair turns, at the
    /// point that the old position becomes there, moved on by the step along
    /// the new heading, on the floor of the far side. Otherwise the step is
    /// taken along the first axis, then along the second from where that
    /// ended, each as far as nothing stands in the way.
    pub open spec fn after_move(self, map: WorldMap, delta: Fixed) -> Player {
        let speed = prod(self.velocity.x, delta);
        let new_x = sum(self.pos.x, prod(self.dir.x, speed));
        let new_y = sum(self.pos.y, prod(self.dir.y, speed));
        match first_pair_at(map.portals@, self.ahead(delta), Direction::Unset, 0) {
            Some((Some(source), Some(dest))) => {
                let turned = self.turned(
                    (-(QUARTER_TURN * dest.link_turns(source))) as i64,
                    ONE,
                );
                Player {
                    pos: Vector3f {
                        x: sum(dest.link_x_spec(source, self.pos) as i64, prod(turned.dir.x, speed)),
                        y: sum(dest.link_y_spec(source, self.pos) as i64, prod(turned.dir.y, speed)),
                        z: dest.pos.z,
                    },
                    ..turned
                }
            },
            _ => {
                let along_x = Player { pos: Vector3f { x: self.stepped_x(map, new_x), ..self.pos }, ..self };
                Player {
                    pos: Vector3f { y: along_x.stepped_y(map, new_y), ..along_x.pos },
                    ..along_x
                }
            },
        }
    }

    /// Lets the player walk for `delta` seconds.
    fn update_pos(&mut self, map: &WorldMap, delta: Fixed)
        requires
            map.wf(),
        ensures
            *final(self) == old(self).after_move(*map, delta),
    {
        let speed: Fixed = fx_mul(self.velocity.x, delta);
        let new_x: Fixed = fx_add(self.pos.x, fx_mul(self.dir.x, speed));
        let new_y: Fixed = fx_add(self.pos.y, fx_mul(self.dir.y, speed));
        let ahead: Vector3f = Vector3f::new(fx_floor(new_x), fx_floor(new_y), fx_floor(self.pos.z));

        proof {
            lemma_whole_pairs(map.portals@, ahead, 0);
        }
        match map.portals_at(ahead, Direction::Unset) {
            Some((Some(source), Some(dest))) => {
                let tmp: Vector3f = self.pos;
                self.update_dir(dest.link_dir(source), ONE);
                self.pos.x = fx_add(dest.link_x(source, &tmp), fx_mul(self.dir.x, speed));
                self.pos.y = fx_add(dest.link_y(source, &tmp), fx_mul(self.dir.y, speed));
                self.pos.z = dest.pos.z;
            },
            _ => {
                self.pos.x = self.move_x(map, new_x);
                self.pos.y = self.move_y(map, new_y);
            },
        }
    }

    /// What the player looks at: the end of the ray through the middle of
    /// the screen.
    pub open spec fn sight(self, map: WorldMap) -> Hit {
        Ray::launched(
            self.pos,
            Ray::aim(self.dir, self.plane, Vector2 { x: 0, y: 0 }),
            0,
            Direction::Unset,
        ).walk(map, Passage::start(), walk_budget(map.floors)).0
    }

    /// Whether an update sets off what the player looks at: an interaction
    /// was asked for, and something is in sight within [`REACH`].
    pub open spec fn reaches(self, map: WorldMap) -> bool {
        self.action == Action::Interact && self.sight(map).value is Some && self.sight(map).dist
            <= REACH
    }

    /// The frame of the walk animation after `delta` seconds: at rest it is
    /// 0; while walking it moves on, from 4 back to 1, each time more than
    /// [`FRAME_TIME`] has gone by.
    pub open spec fn animated(self, delta: Fixed) -> Player {
        if self.velocity.x == 0 {
            Player { frame: 0, ..self }
        } else if sum(self.delta, delta) > FRAME_TIME {
            Player { frame: (self.frame % 4 + 1) as u32, delta: 0, ..self }
        } else {
            Player { delta: sum(self.delta, delta), ..self }
        }
    }

    /// The player after `delta` seconds in `map`, the map being as the
    /// interaction has left it.
    ///
    /// The request for an interaction is used up. A player that moves up or
    /// down, or is above the ground, is under gravity. A player with a
    /// forward speed walks, and the walk animation runs. A player with a
    /// turning speed turns.
    pub open spec fn after_update(self, map: WorldMap, delta: Fixed) -> Player {
        let rested = Player { action: Action::Idle, ..self };
        let fallen = if rested.velocity.y != 0 || rested.pos.z > 0 {
            rested.after_gravity(map, delta)
        } else {
            rested
        };
        let walked = if fallen.velocity.x != 0 {
            fallen.after_move(map, delta).animated(delta)
        } else {
            fallen.animated(delta)
        };
        if walked.rotation.x != 0 {
            walked.turned(walked.rotation.x, delta)
        } else {
            walked
        }
    }

    /// Lets `delta` seconds pass for the player.
    ///
    /// Where an interaction was asked for and something is in sight within
    /// reach, the cell in sight is set off; the map changes in no other way.
    pub fn update(&mut self, map: &mut WorldMap, delta: Fixed)
        requires
            old(map).wf(),
        ensures
            final(map).wf(),
            old(self).reaches(*old(map)) ==> final(map).triggered_from(
                *old(map),
                old(self).sight(*old(map)).pos,
            ),
            !old(self).reaches(*old(map)) ==> *final(map) == *old(map),
            *final(self) == old(self).after_update(*final(map), delta),
    {
        if self.action == Action::Interact {
            let mut ray: Ray = Ray::new(self, Vector2f::zero());
            let hit: Hit = ray.cast(map);

            if hit.value.is_some() && hit.dist <= REACH {
                map.trigger_at(&hit.pos);
            }
            self.action = Action::Idle;
        }
        if self.velocity.y != 0 || self.pos.z > 0 {
            self.update_gravity(map, delta);
        }
        if self.velocity.x != 0 {
            self.update_pos(map, delta);
            self.delta = fx_add(self.delta, delta);
            if self.delta > FRAME_TIME {
                self.frame = self.frame % 4 + 1;
                self.delta = 0;
            }
        } else {
            self.frame = 0;
        }
        if self.rotation.x != 0 {
            self.update_dir(self.rotation.x, delta);
        }
    }
}

/// A wall of full height stops the player.
///
/// Take a player within a million cells of the ground, and a step along
/// either axis that leads into the cell of a wall of full height. The step
/// is not taken: the player stays where the step began.
pub proof fn lemma_full_wall_stops(player: Player, map: WorldMap, to: Fixed, value: u32)
    requires
        -1_000_000_000_000 <= player.pos.z <= 1_000_000_000_000,
    ensures
        map.at_point(Vector3f { x: to, y: player.pos.y, z: player.pos.z }) == (Cell::Wall {
            value,
            height: ONE,
        }) ==> player.stepped_x(map, to) == player.pos.x,
        map.at_point(Vector3f { x: player.pos.x, y: to, z: player.pos.z }) == (Cell::Wall {
            value,
            height: ONE,
        }) ==> player.stepped_y(map, to) == player.pos.y,
{
}

} // verus!
