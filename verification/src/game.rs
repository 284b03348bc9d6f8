//! The game: one step of the world and one picture of it at a time.
use vstd::prelude::*;
use crate::billboard::{Camera, paint, paint_over, MAX_SIDE};
use crate::canvas::Canvas;
use crate::color::{HSLColor, RGBColor};
use crate::direction::Direction;
use crate::fixed::{Fixed, ONE, HALF, sum, diff, size, fx_abs, fx_add, fx_div, fx_from_int, fx_sub};
use crate::json::{items_of, member, member_of};
use crate::map::{WorldMap, first_pair_at, floor_cell, floors_of, floors_readable, inside,
    portals_read, GRID};
use crate::player::Player;
use crate::portal::Portal;
use crate::rayobject::{Hit, Passage, Ray, walk_budget};
use crate::sprite::{Sprite, Zdist, Zorigin, all_seen_from, drawing_order, in_drawing_order,
    measure_sprites, sort_sprites, sprites_read, start_read};
use crate::textures::{Textures, get_texture_coord, texel_spec, TILE};
use crate::vectors::{Vector2, Vector2f, Vector3f};

verus! {

/// How many times the colour of one pixel looks further: through a portal,
/// or behind a texel that is not opaque.
pub const SHADE_DEPTH: u32 = 8;

/// The game: the world, the player, and the picture of the last frame.
pub struct Game {
    pub map: WorldMap,
    pub player: Player,
    pub sprites: Vec<Sprite>,
    pub canvas: Canvas,
    /// For each pixel, row after row, what the walls drawn there are.
    pub z_buffer: Vec<Zdist>,
    /// The cameras behind the portals that the last frame looked through.
    pub z_origins: Vec<Zorigin>,
    pub textures: Textures,
}

/// What the colour of a pixel is made from.
pub struct Scene {
    pub map: WorldMap,
    pub textures: Textures,
    pub player: Player,
    /// The height of the picture.
    pub height: usize,
}

/// What one pixel has come to.
pub struct Shade {
    pub color: RGBColor,
    /// The ray where it ended.
    pub ray: Ray,
    /// The cameras behind portals known by then.
    pub origins: Seq<Zorigin>,
    /// What the pixel shows.
    pub seen: Zdist,
}

/// The colour behind everything: the sky in the upper half of a picture
/// `height` high and the ground below.
pub open spec fn backdrop_spec(y: usize, height: usize) -> RGBColor {
    if y > height / 2 {
        RGBColor { r: 113, g: 113, b: 113, a: 255 }
    } else {
        RGBColor { r: 56, g: 56, b: 56, a: 255 }
    }
}

/// A colour with the hue, saturation and lightness of `tint` added.
#[verifier::opaque]
pub open spec fn tinted(color: RGBColor, tint: HSLColor) -> RGBColor {
    RGBColor::of_hsl(HSLColor::of_rgb(color).sum(tint))
}

/// The last of the cameras up to `from` that is `depth` portals deep.
pub open spec fn parent_of(origins: Seq<Zorigin>, depth: int, from: int) -> Option<Zorigin>
    decreases from + 1,
{
    if from < 0 || from >= origins.len() {
        None
    } else if origins[from].depth == depth {
        Some(origins[from])
    } else {
        parent_of(origins, depth, from - 1)
    }
}

/// Whether one of the cameras is at `pos`, `depth` portals deep.
pub open spec fn seen_before(origins: Seq<Zorigin>, pos: Vector3f, depth: usize) -> bool {
    exists|i: int| 0 <= i < origins.len() && origins[i].pos == pos && origins[i].depth == depth
}

impl Scene {
    /// The texel of the wall that `hit` is on: of the row of tiles of the
    /// texture `value`, the bright tile for a face under light and the dark
    /// one for any other.
    #[verifier::opaque]
    pub open spec fn wall_color(self, hit: Hit, value: u32) -> RGBColor {
        let at = texel_spec(hit.texture_pos.x, hit.texture_pos.y);
        self.textures.wall_texel(
            (at.0 + if hit.dir.under_light() {
                0
            } else {
                TILE as int
            }) as u64,
            (at.1 + TILE * value) as u64,
        )
    }

    /// The texel of the portal that `hit` is on.
    #[verifier::opaque]
    pub open spec fn portal_color(self, hit: Hit) -> RGBColor {
        let at = texel_spec(hit.texture_pos.x, hit.texture_pos.y);
        self.textures.portal_texel(at.0, at.1)
    }

    /// The camera behind the portal that `ray` has just passed, from
    /// `source` to `dest`, having hit the face `face`.
    ///
    /// It stands where the ray now starts, and is turned by the turn of the
    /// pair of portals, added to the turn of the camera one portal less deep
    /// that was found last, if the ray is more than one portal deep and there
    /// is one. The heading of the first portal's face is taken over from that
    /// camera too, and is otherwise that of `face`.
    pub open spec fn camera_behind(
        self,
        origins: Seq<Zorigin>,
        ray: Ray,
        face: Direction,
        dest: Portal,
        source: Portal,
    ) -> Zorigin {
        let depth = ray.portal_recursion;
        let turn = (-(crate::fixed::QUARTER_TURN * dest.link_turns(source))) as i64;
        let parent = if depth > 1 {
            parent_of(origins, depth - 1, origins.len() - 1)
        } else {
            None
        };
        let rotation = match parent {
            Some(p) => sum(turn, p.rotation),
            None => turn,
        };
        let portal_degree = match parent {
            Some(p) => p.portal_degree,
            None => face.degree(),
        };
        Zorigin {
            pos: Vector3f { z: diff(ray.origin.z, HALF), ..ray.origin },
            dir: self.player.dir.rotated(rotation as int),
            plane: self.player.plane.rotated(rotation as int),
            depth,
            rotation,
            portal_degree,
        }
    }

    /// The cameras with the one behind the portal just passed, unless one
    /// at the same place and as deep is already among them.
    #[verifier::opaque]
    pub open spec fn recorded(
        self,
        origins: Seq<Zorigin>,
        ray: Ray,
        face: Direction,
        dest: Portal,
        source: Portal,
    ) -> Seq<Zorigin> {
        let camera = self.camera_behind(origins, ray, face, dest, source);
        if seen_before(origins, camera.pos, camera.depth) {
            origins
        } else {
            origins.push(camera)
        }
    }

    /// What the pixel in the row `y` comes to, for a ray that has ended in
    /// `hit`, looking further at most `budget` times.
    ///
    /// The pixel shows the length of the ray and the number of portals it
    /// has passed. A miss is the backdrop. A hit on a wall is the texel of
    /// the wall, unless a portal is on the face that was hit. On a portal the
    /// texel of the portal decides: white lets the wall show; the frame, which
    /// is opaque, and all of a portal without a far side, is tinted with the
    /// portal's hue; the middle is what a ray sees that goes through the
    /// portal and on, or the tinted texel where the ray does not go through.
    /// A colour that is not opaque is mixed, channel by channel in equal
    /// parts, with what the ray sees beyond.
    pub open spec fn shade(self, origins: Seq<Zorigin>, y: usize, hit: Hit, ray: Ray, budget: nat)
        -> Shade
        decreases budget,
    {
        let seen = Zdist { dist: size(hit.dist), portal_depth: ray.portal_recursion };
        match hit.value {
            None => Shade { color: backdrop_spec(y, self.height), ray, origins, seen },
            Some(value) => {
                let wall = Shade { color: self.wall_color(hit, value), ray, origins, seen };
                let texel = self.portal_color(hit);
                let first = match first_pair_at(self.map.portals@, hit.pos, hit.dir, 0) {
                    Some((Some(source), far)) => {
                        let tint = tinted(texel, source.hsl);
                        if texel == (RGBColor { r: 255, g: 255, b: 255, a: 255 }) {
                            wall
                        } else if far is None || texel.a == 255 || budget == 0 {
                            Shade { color: tint, ..wall }
                        } else {
                            let dest = far->0;
                            let (went, beyond) = ray.through_portal(dest, source);
                            if went {
                                let found = beyond.walk(
                                    self.map,
                                    Passage::start(),
                                    walk_budget(self.map.floors),
                                );
                                self.shade(
                                    self.recorded(origins, beyond, hit.dir, dest, source),
                                    y,
                                    found.0,
                                    found.1,
                                    (budget - 1) as nat,
                                )
                            } else {
                                Shade { color: tint, ray: beyond, ..wall }
                            }
                        }
                    },
                    _ => wall,
                };
                if first.color.a != 255 && budget > 0 {
                    let found = first.ray.grown().walk(
                        self.map,
                        Passage::start(),
                        walk_budget(self.map.floors),
                    );
                    let behind = self.shade(first.origins, y, found.0, found.1, (budget - 1) as nat);
                    Shade { color: first.color.blended(behind.color), ..behind }
                } else {
                    first
                }
            },
        }
    }
}

fn backdrop(y: usize, height: usize) -> (r: RGBColor)
    ensures
        r == backdrop_spec(y, height),
{
    if y > height / 2 {
        RGBColor::new(113, 113, 113)
    } else {
        RGBColor::new(56, 56, 56)
    }
}

fn tint(color: &RGBColor, hsl: HSLColor) -> (r: RGBColor)
    ensures
        r == tinted(*color, hsl),
{
    reveal(tinted);
    RGBColor::from_hsl(&HSLColor::from_rgb(color).add(hsl))
}

impl Game {
    /// A game is well formed when its parts are, the picture is no wider
    /// and no higher than [`MAX_SIDE`], and every pixel shows a distance that
    /// is not negative.
    pub open spec fn wf(self) -> bool {
        &&& self.map.wf()
        &&& self.textures.wf()
        &&& self.canvas.wf()
        &&& self.canvas.width <= MAX_SIDE
        &&& self.canvas.height <= MAX_SIDE
        &&& self.z_buffer@.len() == self.canvas.width * self.canvas.height
        &&& forall|i: int| 0 <= i < self.z_buffer@.len() ==> (#[trigger] self.z_buffer@[i]).dist >= 0
    }

    /// What the colours of the picture are made from.
    pub open spec fn scene(self) -> Scene {
        Scene {
            map: self.map,
            textures: self.textures,
            player: self.player,
            height: self.canvas.height,
        }
    }

    /// What the pixel `(x, y)` shows.
    pub open spec fn seen_at(self, x: int, y: int) -> Zdist {
        self.z_buffer@[y * self.canvas.width + x]
    }

    /// A game in `map` with the player at `player_pos`, and a clear picture
    /// of `width` by `height` pixels, or nothing for a picture wider or higher
    /// than [`MAX_SIDE`] or too large for the memory.
    pub fn new(
        map: WorldMap,
        player_pos: Vector3f,
        sprites: Vec<Sprite>,
        textures: Textures,
        width: usize,
        height: usize,
    ) -> (r: Option<Game>)
        requires
            map.wf(),
            textures.wf(),
        ensures
            r is Some == (width <= MAX_SIDE && height <= MAX_SIDE && width * height * 4
                <= usize::MAX),
            r matches Some(game) ==> {
                &&& game.wf()
                &&& game.map == map
                &&& game.textures == textures
                &&& game.sprites == sprites
                &&& game.player == Player::at(player_pos)
                &&& game.canvas.width == width
                &&& game.canvas.height == height
                &&& game.z_origins@.len() == 0
                &&& forall|i: int|
                    0 <= i < game.z_buffer@.len() ==> #[trigger] game.z_buffer@[i] == (Zdist {
                        dist: 0,
                        portal_depth: 0,
                    })
                &&& forall|i: int|
                    0 <= i < game.canvas.buffer@.len() ==> #[trigger] game.canvas.buffer@[i] == 0
            },
    {
        if width > MAX_SIDE || height > MAX_SIDE {
            return None;
        }
        let pixels: usize = match width.checked_mul(height) {
            Some(n) => n,
            None => {
                proof {
                    assert(width * height * 4 >= width * height) by (nonlinear_arith)
                        requires
                            width * height >= 0,
                    ;
                }
                return None;
            },
        };
        if pixels.checked_mul(4).is_none() {
            return None;
        }
        let mut z_buffer: Vec<Zdist> = Vec::new();
        let mut i: usize = 0;
        while i < pixels
            invariant
                i <= pixels,
                z_buffer@.len() == i,
                forall|k: int|
                    0 <= k < i ==> #[trigger] z_buffer@[k] == (Zdist { dist: 0, portal_depth: 0 }),
            decreases pixels - i,
        {
            z_buffer.push(Zdist { dist: 0, portal_depth: 0 });
            i += 1;
        }
        Some(
            Game {
                map,
                player: Player::new(player_pos),
                sprites,
                canvas: Canvas::new(width, height),
                z_buffer,
                z_origins: Vec::new(),
                textures,
            },
        )
    }

    /// The sprites of a map file and the place where the player starts, or
    /// nothing where its member `sprites` is no array or lists a malformed
    /// sprite.
    pub open spec fn cast_read(json: serde_json::Value) -> Option<(Seq<Sprite>, Vector3f)> {
        match member_of(json, "sprites"@) {
            Some(v) => match items_of(v) {
                Some(list) => match (
                    sprites_read(list, list.len() as int),
                    start_read(list, list.len() as int),
                ) {
                    (Some(sprites), Some(start)) => Some((sprites, start)),
                    _ => None,
                },
                None => None,
            },
            None => None,
        }
    }

    /// A game in the world of a map file, with a clear picture of `width` by
    /// `height` pixels. Nothing where the file is malformed, or the picture
    /// is wider or higher than [`MAX_SIDE`] or too large for the memory.
    ///
    /// The player starts where the sprite of kind 0 stands.
    pub fn from_json(json: &serde_json::Value, textures: Textures, width: usize, height: usize)
        -> (r: Option<Game>)
        requires
            textures.wf(),
        ensures
            r is Some == ({
                let floors = floors_of(*json);
                &&& Game::cast_read(*json) is Some
                &&& floors is Some
                &&& floors_readable(floors->0, floors->0.len() as int)
                &&& portals_read(*json) is Some
                &&& floors->0.len() * GRID * GRID <= usize::MAX
                &&& width <= MAX_SIDE
                &&& height <= MAX_SIDE
                &&& width * height * 4 <= usize::MAX
            }),
            r matches Some(game) ==> {
                &&& game.wf()
                &&& game.textures == textures
                &&& game.canvas.width == width
                &&& game.canvas.height == height
                &&& (Game::cast_read(*json) matches Some(found) && game.sprites@ == found.0
                    && game.player == Player::at(found.1))
                &&& Some(game.map.portals@) == portals_read(*json)
                &&& game.map.floors == floors_of(*json)->0.len()
                &&& forall|x: int, y: int, z: int|
                    inside(x, y, z, game.map.floors as int) ==> Some(#[trigger] game.map.at(x, y, z))
                        == floor_cell(floors_of(*json)->0[z], x, y)
            },
    {
        let map: WorldMap = match WorldMap::new(json) {
            Some(map) => map,
            None => {
                return None;
            },
        };
        let list: &serde_json::Value = match member(json, "sprites") {
            Some(list) => list,
            None => {
                return None;
            },
        };
        let start: Vector3f = match Sprite::get_player_pos_from_json(list) {
            Some(start) => start,
            None => {
                return None;
            },
        };
        let sprites: Vec<Sprite> = match Sprite::parse_sprites_from_json(list) {
            Some(sprites) => sprites,
            None => {
                return None;
            },
        };
        Game::new(map, start, sprites, textures, width, height)
    }

    /// Takes note of a key going down (`pressed`) or up. A key that the
    /// player does not know changes nothing.
    pub fn process_event(&mut self, key: u32, pressed: bool)
        ensures
            final(self).player == old(self).player.after_input(key, pressed),
            final(self).map == old(self).map,
            final(self).sprites == old(self).sprites,
            final(self).canvas == old(self).canvas,
            final(self).z_buffer == old(self).z_buffer,
            final(self).z_origins == old(self).z_origins,
            final(self).textures == old(self).textures,
    {
        self.player.handle_inputs(key, pressed);
    }

    /// The texel of the wall that `hit` is on.
    fn wall_pixel(&self, hit: &Hit, value: u32) -> (r: RGBColor)
        requires
            self.textures.wf(),
            hit.wf(),
        ensures
            r == self.scene().wall_color(*hit, value),
    {
        reveal(Scene::wall_color);
        let (text_x, text_y) = get_texture_coord(hit.texture_pos.x, hit.texture_pos.y);
        let shift: u64 = if hit.dir.is_under_light() {
            0
        } else {
            TILE
        };
        self.textures.get_wall_pixel(text_x + shift, text_y + TILE * (value as u64))
    }

    /// The texel of the portal that `hit` is on.
    fn portal_pixel(&self, hit: &Hit) -> (r: RGBColor)
        requires
            self.textures.wf(),
            hit.wf(),
        ensures
            r == self.scene().portal_color(*hit),
    {
        reveal(Scene::portal_color);
        let (text_x, text_y) = get_texture_coord(hit.texture_pos.x, hit.texture_pos.y);
        self.textures.get_portal_pixel(text_x, text_y)
    }

    /// Notes the camera behind the portal that `ray` has just passed,
    /// unless it is known already.
    fn record_origin(&mut self, ray: &Ray, face: Direction, dest: &Portal, source: &Portal)
        ensures
            final(self).z_origins@ == old(self).scene().recorded(
                old(self).z_origins@,
                *ray,
                face,
                *dest,
                *source,
            ),
            final(self).map == old(self).map,
            final(self).player == old(self).player,
            final(self).sprites == old(self).sprites,
            final(self).canvas == old(self).canvas,
            final(self).z_buffer == old(self).z_buffer,
            final(self).textures == old(self).textures,
    {
        reveal(Scene::recorded);
        let depth: usize = ray.portal_recursion;
        let mut pos: Vector3f = ray.origin;
        let mut dir: Vector2f = self.player.dir;
        let mut plane: Vector2f = self.player.plane;
        let mut rotation: Fixed = dest.link_dir(source);
        let mut portal_degree: u32 = face.to_degree();
        let count: usize = self.z_origins.len();

        if depth > 1 {
            let mut idx: usize = count;
            let mut found: bool = false;
            while idx > 0 && !found
                invariant
                    idx <= count,
                    count == self.z_origins@.len(),
                    depth > 1,
                    !found ==> parent_of(self.z_origins@, depth - 1, count - 1) == parent_of(
                        self.z_origins@,
                        depth - 1,
                        idx - 1,
                    ),
                    !found ==> rotation == (-(crate::fixed::QUARTER_TURN * dest.link_turns(*source))) as i64
                        && portal_degree == face.degree(),
                    found ==> (parent_of(self.z_origins@, depth - 1, count - 1) matches Some(p)
                        && rotation == sum(
                        (-(crate::fixed::QUARTER_TURN * dest.link_turns(*source))) as i64,
                        p.rotation,
                    ) && portal_degree == p.portal_degree),
                decreases idx,
            {
                idx -= 1;
                if self.z_origins[idx].depth == depth - 1 {
                    rotation = fx_add(rotation, self.z_origins[idx].rotation);
                    portal_degree = self.z_origins[idx].portal_degree;
                    found = true;
                }
            }
        }
        pos.z = fx_sub(pos.z, HALF);
        dir.rotate(rotation);
        plane.rotate(rotation);

        let mut find: bool = false;
        let mut idx: usize = count;
        while idx > 0 && !find
            invariant
                idx <= count,
                count == self.z_origins@.len(),
                find ==> seen_before(self.z_origins@, pos, depth),
                !find ==> forall|i: int|
                    idx <= i < count ==> !(self.z_origins@[i].pos == pos && self.z_origins@[i].depth
                        == depth),
            decreases idx,
        {
            idx -= 1;
            if self.z_origins[idx].pos == pos && self.z_origins[idx].depth == depth {
                find = true;
            }
        }
        if !find {
            self.z_origins.push(Zorigin { pos, dir, plane, depth, rotation, portal_degree });
        }
    }

    /// Finds the colour of the pixel `(x, y)`, for whose ray `hit` was
    /// found, and notes what the pixel shows and which cameras behind portals
    /// the ray has found.
    fn compute_pixel(&mut self, x: usize, y: usize, hit: &Hit, ray: &mut Ray, budget: u32) -> (color:
        RGBColor)
        requires
            old(self).wf(),
            x < old(self).canvas.width,
            y < old(self).canvas.height,
            hit.wf(),
        ensures
            final(self).wf(),
            final(self).map == old(self).map,
            final(self).player == old(self).player,
            final(self).sprites == old(self).sprites,
            final(self).canvas == old(self).canvas,
            final(self).textures == old(self).textures,
            ({
                let shade = old(self).scene().shade(
                    old(self).z_origins@,
                    y,
                    *hit,
                    *old(ray),
                    budget as nat,
                );
                &&& color == shade.color
                &&& *final(ray) == shade.ray
                &&& final(self).z_origins@ == shade.origins
                &&& final(self).z_buffer@ == old(self).z_buffer@.update(
                    y * old(self).canvas.width + x,
                    shade.seen,
                )
            }),
        decreases budget,
    {
        proof {
            crate::canvas::lemma_offset_in_range(
                x as int,
                y as int,
                self.canvas.width as int,
                self.canvas.height as int,
            );
        }
        let total: usize = self.z_buffer.len();
        let place: usize = y * self.canvas.width + x;
        self.z_buffer.set(place, Zdist { dist: fx_abs(hit.dist), portal_depth: ray.portal_recursion });
        let value: u32 = match hit.value {
            None => {
                return backdrop(y, self.canvas.height);
            },
            Some(value) => value,
        };
        let wall: RGBColor = self.wall_pixel(hit, value);
        let portal_color: RGBColor = self.portal_pixel(hit);
        let found: Option<(Portal, Option<Portal>)> = match self.map.portals_at(hit.pos, hit.dir) {
            Some((Some(source), Some(dest))) => Some((*source, Some(*dest))),
            Some((Some(source), None)) => Some((*source, None)),
            _ => None,
        };
        let mut color: RGBColor = match found {
            None => wall,
            Some((source, far)) => {
                if portal_color == RGBColor::white() {
                    wall
                } else if far.is_none() || portal_color.a == 255 || budget == 0 {
                    tint(&portal_color, source.hsl)
                } else {
                    let dest: Portal = far.unwrap();
                    if ray.pass_through_portal(&dest, &source) {
                        self.record_origin(ray, hit.dir, &dest, &source);
                        let new_hit: Hit = ray.cast(&self.map);
                        let inner: RGBColor = self.compute_pixel(x, y, &new_hit, ray, budget - 1);
                        inner
                    } else {
                        tint(&portal_color, source.hsl)
                    }
                }
            },
        };
        if color.a != 255 && budget > 0 {
            ray.grow();
            let new_hit: Hit = ray.cast(&self.map);
            let behind: RGBColor = self.compute_pixel(x, y, &new_hit, ray, budget - 1);

            color.blend(&behind);
        }
        color
    }

    /// The point of the screen, each coordinate from -1 to 1, that the pixel
    /// `(x, y)` of a picture of `width` by `height` pixels stands for.
    pub open spec fn screen_point(x: usize, y: usize, width: usize, height: usize) -> Vector2f {
        Vector2 {
            x: diff(
                crate::fixed::ratio(
                    crate::fixed::from_int_spec(2 * x) as i64,
                    crate::fixed::from_int_spec(width as int) as i64,
                ),
                ONE,
            ),
            y: diff(
                crate::fixed::ratio(
                    crate::fixed::from_int_spec(2 * y) as i64,
                    crate::fixed::from_int_spec(height as int) as i64,
                ),
                ONE,
            ),
        }
    }

    /// What the pixel `(x, y)` of a picture `width` wide comes to when the
    /// cameras `origins` are known: the shade of what the ray from the
    /// player's eye through the pixel ends at.
    #[verifier::opaque]
    pub open spec fn pixel_shade(scene: Scene, origins: Seq<Zorigin>, x: usize, y: usize, width: usize)
        -> Shade {
        let found = Ray::launched(
            scene.player.pos,
            Ray::aim(
                scene.player.dir,
                scene.player.plane,
                Game::screen_point(x, y, width, scene.height),
            ),
            0,
            Direction::Unset,
        ).walk(scene.map, Passage::start(), walk_budget(scene.map.floors));
        scene.shade(origins, y, found.0, found.1, SHADE_DEPTH as nat)
    }

    /// The cameras behind portals that are known when the first `k` pixels
    /// have been drawn, column after column, each column from the top.
    pub open spec fn origins_after(scene: Scene, width: usize, k: nat) -> Seq<Zorigin>
        decreases k,
    {
        if k == 0 || scene.height == 0 {
            Seq::empty()
        } else {
            let i = (k - 1) as nat;
            Game::pixel_shade(
                scene,
                Game::origins_after(scene, width, i),
                (i / scene.height as nat) as usize,
                (i % scene.height as nat) as usize,
                width,
            ).origins
        }
    }

    /// What the pixel `(x, y)` comes to in the picture of the walls.
    pub open spec fn wall_shade(scene: Scene, x: usize, y: usize, width: usize) -> Shade {
        Game::pixel_shade(
            scene,
            Game::origins_after(scene, width, (x * scene.height + y) as nat),
            x,
            y,
            width,
        )
    }

    /// Whether the pixel `(x, y)` has the colour of `shade`, made opaque, and
    /// shows what `shade` shows.
    pub open spec fn shows(self, x: usize, y: usize, shade: Shade) -> bool {
        &&& self.canvas.pixel(x as int, y as int) == (RGBColor { a: 255, ..shade.color })
        &&& self.seen_at(x as int, y as int) == shade.seen
    }

    /// Whether the pixel `(x, y)` has the same colour and shows the same as
    /// in `before`.
    pub open spec fn same_pixel(self, before: Game, x: usize, y: usize) -> bool {
        &&& self.canvas.pixel(x as int, y as int) == before.canvas.pixel(x as int, y as int)
        &&& self.seen_at(x as int, y as int) == before.seen_at(x as int, y as int)
    }

    /// Whether every pixel but `(x, y)` is as in `before`.
    pub open spec fn differs_at_most(self, before: Game, x: usize, y: usize) -> bool {
        forall|i: usize, j: usize|
            i < before.canvas.width && j < before.canvas.height && (i != x || j != y)
                ==> #[trigger] self.same_pixel(before, i, j)
    }

    /// Draws the wall in the pixel `(x, y)`. No other pixel changes.
    fn draw_pixel(&mut self, x: usize, y: usize)
        requires
            old(self).wf(),
            x < old(self).canvas.width,
            y < old(self).canvas.height,
        ensures
            final(self).wf(),
            final(self).scene() == old(self).scene(),
            final(self).sprites == old(self).sprites,
            final(self).canvas.width == old(self).canvas.width,
            ({
                let shade = Game::pixel_shade(
                    old(self).scene(),
                    old(self).z_origins@,
                    x,
                    y,
                    old(self).canvas.width,
                );
                &&& final(self).z_origins@ == shade.origins
                &&& final(self).shows(x, y, shade)
            }),
            final(self).differs_at_most(*old(self), x, y),
    {
        reveal(Game::pixel_shade);
        let width: usize = self.canvas.width;
        let height: usize = self.canvas.height;
        let camera: Vector2f = Vector2::new(
            fx_sub(fx_div(fx_from_int(2 * (x as i64)), fx_from_int(width as i64)), ONE),
            fx_sub(fx_div(fx_from_int(2 * (y as i64)), fx_from_int(height as i64)), ONE),
        );
        let mut ray: Ray = Ray::new(&self.player, camera);
        let hit: Hit = ray.cast(&self.map);
        let ghost found = ray;
        let color: RGBColor = self.compute_pixel(x, y, &hit, &mut ray, SHADE_DEPTH);
        let ghost shade = Game::pixel_shade(old(self).scene(), old(self).z_origins@, x, y, width);
        assert(shade == old(self).scene().shade(
            old(self).z_origins@,
            y,
            hit,
            found,
            SHADE_DEPTH as nat,
        ));
        proof {
            crate::canvas::lemma_offset_in_range(x as int, y as int, width as int, height as int);
        }

        self.canvas.put_pixel(x, y, color);
        proof {
            assert forall|i: usize, j: usize|
                i < width && j < height && (i != x || j != y) implies #[trigger] self.same_pixel(
                *old(self),
                i,
                j,
            ) by {
                lemma_pixels_apart(i as int, j as int, x as int, y as int, width as int, height as int);
            }
        }
    }

    /// Draws the walls: every pixel of the picture takes the colour that its
    /// ray finds, column after column, and the cameras behind portals are
    /// collected anew.
    fn draw_view(&mut self)
        requires
            old(self).wf(),
        ensures
            final(self).wf(),
            final(self).scene() == old(self).scene(),
            final(self).sprites == old(self).sprites,
            final(self).canvas.width == old(self).canvas.width,
            final(self).z_origins@ == Game::origins_after(
                old(self).scene(),
                old(self).canvas.width,
                (old(self).canvas.width * old(self).canvas.height) as nat,
            ),
            forall|x: usize, y: usize|
                x < old(self).canvas.width && y < old(self).canvas.height ==> (
                #[trigger] final(self).shows(
                    x,
                    y,
                    Game::wall_shade(old(self).scene(), x, y, old(self).canvas.width),
                )),
    {
        let width: usize = self.canvas.width;
        let height: usize = self.canvas.height;
        let ghost scene = self.scene();

        self.z_origins.clear();
        let mut x: usize = 0;
        while x < width
            invariant
                self.wf(),
                x <= width,
                self.scene() == scene,
                scene.height == height,
                self.sprites == old(self).sprites,
                self.canvas.width == width,
                self.z_origins@ == Game::origins_after(scene, width, (x * height) as nat),
                forall|i: usize, j: usize|
                    i < x && j < height ==> #[trigger] self.shows(
                        i,
                        j,
                        Game::wall_shade(scene, i, j, width),
                    ),
            decreases width - x,
        {
            let mut y: usize = 0;
            while y < height
                invariant
                    self.wf(),
                    x < width,
                    y <= height,
                    self.scene() == scene,
                    scene.height == height,
                    self.sprites == old(self).sprites,
                    self.canvas.width == width,
                    self.z_origins@ == Game::origins_after(scene, width, (x * height + y) as nat),
                    forall|i: usize, j: usize|
                        (i < x && j < height) || (i == x && j < y) ==> #[trigger] self.shows(
                            i,
                            j,
                            Game::wall_shade(scene, i, j, width),
                        ),
                decreases height - y,
            {
                let ghost before = *self;
                self.draw_pixel(x, y);
                proof {
                    lemma_pixel_order(x as int, y as int, width as int, height as int);
                    assert forall|i: usize, j: usize|
                        (i < x && j < height) || (i == x && j < y + 1) implies #[trigger] self.shows(
                        i,
                        j,
                        Game::wall_shade(scene, i, j, width),
                    ) by {
                        if i != x || j != y {
                            assert(before.shows(i, j, Game::wall_shade(scene, i, j, width)));
                            assert(self.same_pixel(before, i, j));
                        }
                    }
                }
                y += 1;
            }
            proof {
                assert((x + 1) * height == x * height + height) by (nonlinear_arith);
            }
            x += 1;
        }
    }

    /// The camera that draws the sprites in the turn `k`: first the cameras
    /// behind portals, the one found last first, then the player's own.
    pub open spec fn camera_number(origins: Seq<Zorigin>, player: Player, k: int) -> Camera {
        if 0 <= k < origins.len() {
            let origin = origins[origins.len() - 1 - k];
            Camera::of(
                origin.depth,
                origin.pos,
                origin.dir,
                origin.plane,
                origin.rotation,
                origin.portal_degree,
                player.dir,
            )
        } else {
            Camera::of(0, player.pos, player.dir, player.plane, 0, 0, player.dir)
        }
    }

    /// The list of sprites when `k` cameras have drawn them: each camera
    /// lets the sprites measure their distance to it and puts them into
    /// drawing order.
    pub open spec fn sprites_after(
        origins: Seq<Zorigin>,
        player: Player,
        sprites: Seq<Sprite>,
        k: int,
    ) -> Seq<Sprite>
        decreases k,
    {
        if k <= 0 {
            sprites
        } else {
            drawing_order(
                all_seen_from(
                    Game::sprites_after(origins, player, sprites, k - 1),
                    Game::camera_number(origins, player, k - 1).pos,
                    player.pos,
                ),
            )
        }
    }

    /// The colour of the pixel `(x, y)` when `camera` has painted the first
    /// `n` of `sprites` over the colour `before`, one after another.
    pub open spec fn painted_all(
        sprites: Seq<Sprite>,
        n: int,
        before: RGBColor,
        seen: Zdist,
        scene: Scene,
        camera: Camera,
        width: usize,
        x: int,
        y: int,
    ) -> RGBColor
        decreases n,
    {
        if n <= 0 {
            before
        } else {
            paint_over(
                Game::painted_all(sprites, n - 1, before, seen, scene, camera, width, x, y),
                seen,
                scene.textures,
                scene.player.frame,
                sprites[n - 1],
                camera,
                camera.projected(sprites[n - 1], width, scene.height),
                x,
                y,
            )
        }
    }

    /// The colour of the pixel `(x, y)`, which shows `seen`, when `k`
    /// cameras have painted the sprites over the colour `before`.
    pub open spec fn colour_after(
        origins: Seq<Zorigin>,
        scene: Scene,
        sprites: Seq<Sprite>,
        width: usize,
        before: RGBColor,
        seen: Zdist,
        k: int,
        x: int,
        y: int,
    ) -> RGBColor
        decreases k,
    {
        if k <= 0 {
            before
        } else {
            let list = Game::sprites_after(origins, scene.player, sprites, k);
            Game::painted_all(
                list,
                list.len() as int,
                Game::colour_after(origins, scene, sprites, width, before, seen, k - 1, x, y),
                seen,
                scene,
                Game::camera_number(origins, scene.player, k - 1),
                width,
                x,
                y,
            )
        }
    }

    /// Draws the sprites over the walls: first as each camera behind a
    /// portal sees them, the camera found last first, then as the player
    /// sees them.
    fn draw_sprites(&mut self)
        requires
            old(self).wf(),
        ensures
            final(self).wf(),
            final(self).scene() == old(self).scene(),
            final(self).z_buffer == old(self).z_buffer,
            final(self).z_origins == old(self).z_origins,
            final(self).canvas.width == old(self).canvas.width,
            final(self).sprites@ == Game::sprites_after(
                old(self).z_origins@,
                old(self).player,
                old(self).sprites@,
                (old(self).z_origins@.len() + 1) as int,
            ),
            in_drawing_order(final(self).sprites@),
            forall|x: int, y: int|
                0 <= x < old(self).canvas.width && 0 <= y < old(self).canvas.height
                    ==> #[trigger] final(self).canvas.pixel(x, y) == Game::colour_after(
                    old(self).z_origins@,
                    old(self).scene(),
                    old(self).sprites@,
                    old(self).canvas.width,
                    old(self).canvas.pixel(x, y),
                    old(self).z_buffer@[y * old(self).canvas.width + x],
                    (old(self).z_origins@.len() + 1) as int,
                    x,
                    y,
                ),
    {
        let count: usize = self.z_origins.len();
        let ghost origins = self.z_origins@;
        let ghost scene = self.scene();
        let ghost width = self.canvas.width;
        let mut k: usize = 0;
        while k < count
            invariant
                self.wf(),
                k <= count,
                count == origins.len(),
                self.scene() == scene,
                scene == old(self).scene(),
                self.z_buffer == old(self).z_buffer,
                self.z_origins == old(self).z_origins,
                self.z_origins@ == origins,
                self.canvas.width == width,
                width == old(self).canvas.width,
                self.sprites@ == Game::sprites_after(origins, scene.player, old(self).sprites@, k as int),
                forall|x: int, y: int|
                    0 <= x < width && 0 <= y < scene.height ==> #[trigger] self.canvas.pixel(x, y)
                        == Game::colour_after(
                        origins,
                        scene,
                        old(self).sprites@,
                        width,
                        old(self).canvas.pixel(x, y),
                        old(self).z_buffer@[y * width + x],
                        k as int,
                        x,
                        y,
                    ),
            decreases count - k,
        {
            let new_origin: Zorigin = self.z_origins[count - 1 - k];

            self.draw_sprite(
                new_origin.depth,
                new_origin.pos,
                new_origin.dir,
                new_origin.plane,
                new_origin.rotation,
                new_origin.portal_degree,
            );
            k += 1;
        }
        let pos: Vector3f = self.player.pos;
        let dir: Vector2f = self.player.dir;
        let plane: Vector2f = self.player.plane;
        self.draw_sprite(0, pos, dir, plane, 0, 0);
    }

    /// Draws the sprites as the camera at `pos` sees them, which is `depth`
    /// portals deep: they measure their distance to the camera, are put into
    /// drawing order, and are painted one after another.
    fn draw_sprite(
        &mut self,
        depth: usize,
        pos: Vector3f,
        dir: Vector2f,
        plane: Vector2f,
        rotation: Fixed,
        shift_degree: u32,
    )
        requires
            old(self).wf(),
        ensures
            final(self).wf(),
            final(self).scene() == old(self).scene(),
            final(self).z_buffer == old(self).z_buffer,
            final(self).z_origins == old(self).z_origins,
            final(self).canvas.width == old(self).canvas.width,
            final(self).sprites@ == drawing_order(
                all_seen_from(old(self).sprites@, pos, old(self).player.pos),
            ),
            in_drawing_order(final(self).sprites@),
            forall|x: int, y: int|
                0 <= x < old(self).canvas.width && 0 <= y < old(self).canvas.height
                    ==> #[trigger] final(self).canvas.pixel(x, y) == Game::painted_all(
                    final(self).sprites@,
                    final(self).sprites@.len() as int,
                    old(self).canvas.pixel(x, y),
                    old(self).z_buffer@[y * old(self).canvas.width + x],
                    old(self).scene(),
                    Camera::of(depth, pos, dir, plane, rotation, shift_degree, old(self).player.dir),
                    old(self).canvas.width,
                    x,
                    y,
                ),
    {
        let player_pos: Vector3f = self.player.pos;
        measure_sprites(&mut self.sprites, &pos, &player_pos);
        sort_sprites(&mut self.sprites);

        let camera: Camera = Camera::new(
            depth,
            pos,
            dir,
            plane,
            rotation,
            shift_degree,
            &self.player.dir,
        );
        let ghost scene = self.scene();
        let ghost width = self.canvas.width;
        let count: usize = self.sprites.len();
        let mut i: usize = 0;
        while i < count
            invariant
                self.wf(),
                i <= count,
                count == self.sprites@.len(),
                self.scene() == scene,
                scene == old(self).scene(),
                self.z_buffer == old(self).z_buffer,
                self.z_origins == old(self).z_origins,
                self.canvas.width == width,
                width == old(self).canvas.width,
                self.sprites@ == drawing_order(
                    all_seen_from(old(self).sprites@, pos, old(self).player.pos),
                ),
                in_drawing_order(self.sprites@),
                camera == Camera::of(
                    depth,
                    pos,
                    dir,
                    plane,
                    rotation,
                    shift_degree,
                    old(self).player.dir,
                ),
                camera.view < 8,
                forall|x: int, y: int|
                    0 <= x < width && 0 <= y < scene.height ==> #[trigger] self.canvas.pixel(x, y)
                        == Game::painted_all(
                        self.sprites@,
                        i as int,
                        old(self).canvas.pixel(x, y),
                        old(self).z_buffer@[y * width + x],
                        scene,
                        camera,
                        width,
                        x,
                        y,
                    ),
            decreases count - i,
        {
            let sprite: Sprite = self.sprites[i];
            paint(
                &mut self.canvas,
                &self.z_buffer,
                &self.textures,
                self.player.frame,
                &sprite,
                &camera,
            );
            i += 1;
        }
    }

    /// Whether the picture is the one that the game draws of its scene,
    /// having started with the sprites `sprites`: the walls with the sprites
    /// painted over them by each camera in its turn.
    pub open spec fn drawn_from(self, sprites: Seq<Sprite>) -> bool {
        &&& self.z_origins@ == Game::origins_after(
            self.scene(),
            self.canvas.width,
            (self.canvas.width * self.canvas.height) as nat,
        )
        &&& self.sprites@ == Game::sprites_after(
            self.z_origins@,
            self.player,
            sprites,
            (self.z_origins@.len() + 1) as int,
        )
        &&& forall|x: usize, y: usize|
            x < self.canvas.width && y < self.canvas.height ==> #[trigger] self.pictures(
                sprites,
                x,
                y,
            )
    }

    /// Whether the pixel `(x, y)` shows what the ray through it has found,
    /// and has the colour found there with the sprites painted over it.
    pub open spec fn pictures(self, sprites: Seq<Sprite>, x: usize, y: usize) -> bool {
        let shade = Game::wall_shade(self.scene(), x, y, self.canvas.width);
        &&& self.seen_at(x as int, y as int) == shade.seen
        &&& self.canvas.pixel(x as int, y as int) == Game::colour_after(
            self.z_origins@,
            self.scene(),
            sprites,
            self.canvas.width,
            RGBColor { a: 255, ..shade.color },
            shade.seen,
            (self.z_origins@.len() + 1) as int,
            x as int,
            y as int,
        )
    }

    /// Draws the picture: the walls, then the sprites over them.
    fn draw(&mut self)
        requires
            old(self).wf(),
        ensures
            final(self).wf(),
            final(self).scene() == old(self).scene(),
            final(self).canvas.width == old(self).canvas.width,
            final(self).drawn_from(old(self).sprites@),
            in_drawing_order(final(self).sprites@),
    {
        self.draw_view();
        let ghost walls = *self;
        self.draw_sprites();
        proof {
            assert forall|x: usize, y: usize|
                x < self.canvas.width && y < self.canvas.height implies #[trigger] self.pictures(
                old(self).sprites@,
                x,
                y,
            ) by {
                assert(walls.shows(x, y, Game::wall_shade(walls.scene(), x, y, walls.canvas.width)));
            }
        }
    }

    /// Lets `delta` seconds pass and draws the new picture.
    ///
    /// First the player acts and moves, in the map as it is, and may set a
    /// cell off. Then every cell of the map moves on, the one set off among
    /// them. Then the walls are drawn, which tells for every pixel what it
    /// shows and finds the cameras behind portals, and the sprites are
    /// painted over them by each camera in its turn.
    pub fn update(&mut self, delta: Fixed)
        requires
            old(self).wf(),
        ensures
            final(self).wf(),
            final(self).textures == old(self).textures,
            final(self).canvas.width == old(self).canvas.width,
            final(self).canvas.height == old(self).canvas.height,
            exists|acted: WorldMap|
                {
                    &&& #[trigger] final(self).map.updated_from(acted, delta)
                    &&& old(self).player.reaches(old(self).map) ==> acted.triggered_from(
                        old(self).map,
                        old(self).player.sight(old(self).map).pos,
                    )
                    &&& !old(self).player.reaches(old(self).map) ==> acted == old(self).map
                    &&& final(self).player == old(self).player.after_update(acted, delta)
                },
            final(self).drawn_from(old(self).sprites@),
            in_drawing_order(final(self).sprites@),
            forall|x: int, y: int|
                0 <= x < final(self).canvas.width && 0 <= y < final(self).canvas.height ==> (
                #[trigger] final(self).seen_at(x, y)).dist >= 0,
    {
        self.player.update(&mut self.map, delta);
        self.map.update(delta);
        self.draw();
        proof {
            assert forall|x: int, y: int|
                0 <= x < self.canvas.width && 0 <= y < self.canvas.height implies (
            #[trigger] self.seen_at(x, y)).dist >= 0 by {
                crate::canvas::lemma_offset_in_range(
                    x,
                    y,
                    self.canvas.width as int,
                    self.canvas.height as int,
                );
            }
        }
    }
}

/// Where the pixel `(x, y)` stands in the order in which the walls are
/// drawn, column after column.
pub proof fn lemma_pixel_order(x: int, y: int, width: int, height: int)
    requires
        0 <= x < width,
        0 <= y < height,
    ensures
        0 <= x * height + y < width * height,
        (x * height + y) / height == x,
        (x * height + y) % height == y,
{
    assert(0 <= x * height + y < width * height) by (nonlinear_arith)
        requires
            0 <= x < width,
            0 <= y < height,
    ;
    assert((x * height + y) / height == x && (x * height + y) % height == y) by (nonlinear_arith)
        requires
            0 <= x,
            0 <= y < height,
    ;
}

/// Two pixels of a picture share no byte of its buffer and no place in a
/// list that has one place for each pixel, row after row.
pub proof fn lemma_pixels_apart(i: int, j: int, x: int, y: int, width: int, height: int)
    requires
        0 <= i < width,
        0 <= j < height,
        0 <= x < width,
        0 <= y < height,
        i != x || j != y,
    ensures
        j * width + i != y * width + x,
        0 <= j * width + i < width * height,
        0 <= y * width + x < width * height,
        crate::canvas::offset(i, j, width) + 4 <= crate::canvas::offset(x, y, width)
            || crate::canvas::offset(x, y, width) + 4 <= crate::canvas::offset(i, j, width),
        0 <= crate::canvas::offset(i, j, width),
        crate::canvas::offset(i, j, width) + 4 <= width * height * 4,
{
    assert(j * width + i != y * width + x) by (nonlinear_arith)
        requires
            0 <= i < width,
            0 <= x < width,
            0 <= j,
            0 <= y,
            i != x || j != y,
    ;
    crate::canvas::lemma_offset_in_range(i, j, width, height);
    crate::canvas::lemma_offset_in_range(x, y, width, height);
}

} // verus!
