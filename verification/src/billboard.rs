//! Sprites on the screen: where a camera sees a sprite, and how it is
//! painted over the walls.
use vstd::prelude::*;
use crate::canvas::{Canvas, lemma_offset_in_range, offset};
use crate::color::RGBColor;
use crate::fixed::{Fixed, ONE, TWO, HALF, sum, diff, prod, ratio, minus, size, from_int_spec,
    trunc_int_spec, fx_abs, fx_add, fx_div, fx_from_int, fx_mul, fx_neg, fx_sub, fx_trunc_int};
use crate::heading::{octant, octant_spec};
use crate::sprite::{Sprite, Zdist};
use crate::textures::{Textures, TILE};
use crate::vectors::{Vector2, Vector2f, Vector3f, held_between};

verus! {

/// The widest and the highest picture.
pub const MAX_SIDE: usize = 0x7fff_ffff;

/// A camera that looks at the sprites.
pub struct Camera {
    /// The number of portals between the player and the camera.
    pub depth: usize,
    pub pos: Vector3f,
    pub dir: Vector2f,
    pub plane: Vector2f,
    /// What the plane and the heading span: the factor by which the camera
    /// scales what it sees.
    pub det: Fixed,
    /// The view of the player that the camera sees, from 0 to 7.
    pub view: u64,
}

/// Where a camera sees a sprite on the screen.
pub struct Projection {
    /// How far in front of the camera the sprite stands.
    pub depth: Fixed,
    /// The side of the sprite's square, in pixels.
    pub size: i64,
    /// The column of the left edge of the square, which may be off the
    /// picture.
    pub left: i64,
    /// The columns of the picture that the square takes, from the first to
    /// one behind the last.
    pub columns: Vector2<i64>,
    /// The rows of the picture that the square takes.
    pub rows: Vector2<i64>,
    /// The height on the tile, in texels, of the first row.
    pub top: Fixed,
    /// The texels from row to row.
    pub step: Fixed,
}

/// The whole part of `v`, held within the range of 32 bits.
pub open spec fn whole_spec(v: Fixed) -> i64 {
    let n = trunc_int_spec(v as int);
    if n < -0x8000_0000 {
        -0x8000_0000i64
    } else if n > 0x7fff_ffff {
        0x7fff_ffffi64
    } else {
        n as i64
    }
}

fn whole(v: Fixed) -> (r: i64)
    ensures
        r == whole_spec(v),
        -0x8000_0000 <= r <= 0x7fff_ffff,
{
    let n: i64 = fx_trunc_int(v);
    if n < -0x8000_0000 {
        -0x8000_0000
    } else if n > 0x7fff_ffff {
        0x7fff_ffff
    } else {
        n
    }
}

/// The whole number `n` as a real.
pub open spec fn as_real(n: i64) -> Fixed {
    from_int_spec(n as int) as i64
}

/// The row of a tile that the height `v`, in texels, falls in: its whole
/// part, not below 0 and within 32 bits, modulo the height of a tile.
pub open spec fn row_spec(v: Fixed) -> u64 {
    let n = trunc_int_spec(v as int);
    if n < 0 {
        0
    } else if n > 0xffff_ffff {
        63
    } else {
        (n % 64) as u64
    }
}

fn row_of(v: Fixed) -> (r: u64)
    ensures
        r == row_spec(v),
        r < 64,
{
    let n: i64 = fx_trunc_int(v);
    if n < 0 {
        0
    } else if n > 0xffff_ffff {
        63
    } else {
        (n % 64) as u64
    }
}

/// The height on the tile after `k` rows: `step` added `k` times to `top`.
pub open spec fn row_height(top: Fixed, step: Fixed, k: int) -> Fixed
    decreases k,
{
    if k <= 0 {
        top
    } else {
        sum(row_height(top, step, k - 1), step)
    }
}

impl Camera {
    /// The camera at `pos` with the heading `dir` and the plane `plane`,
    /// behind `depth` portals that have turned it by `rotation`, the first
    /// of them on a face with the heading `shift_degree`. It sees the player,
    /// who heads along `player_dir`, in one of eight views.
    pub open spec fn of(
        depth: usize,
        pos: Vector3f,
        dir: Vector2f,
        plane: Vector2f,
        rotation: Fixed,
        shift_degree: u32,
        player_dir: Vector2f,
    ) -> Camera {
        Camera {
            depth,
            pos,
            dir,
            plane,
            det: diff(prod(plane.x, dir.y), prod(dir.x, plane.y)),
            view: octant_spec(rotation, player_dir, shift_degree) as u64,
        }
    }

    /// The camera at `pos`, see [`Camera::of`].
    pub fn new(
        depth: usize,
        pos: Vector3f,
        dir: Vector2f,
        plane: Vector2f,
        rotation: Fixed,
        shift_degree: u32,
        player_dir: &Vector2f,
    ) -> (r: Camera)
        ensures
            r == Camera::of(depth, pos, dir, plane, rotation, shift_degree, *player_dir),
            r.view < 8,
    {
        Camera {
            depth,
            pos,
            dir,
            plane,
            det: fx_sub(fx_mul(plane.x, dir.y), fx_mul(dir.x, plane.y)),
            view: octant(rotation, player_dir, shift_degree),
        }
    }

    /// Where the camera sees `sprite` in a picture of `width` by `height`
    /// pixels.
    ///
    /// The place of the sprite is taken relative to the camera and turned
    /// into how far it is to the side and how far in front. The sprite is a
    /// square whose side is the height of the picture over the distance in
    /// front. Its middle column is where the ratio of side to front puts it,
    /// and its bottom row is half the picture down, lowered by the height of
    /// the eye and raised by that of the sprite. The tile is stepped through
    /// from the height at which the first row cuts the square.
    #[verifier::opaque]
    pub open spec fn projected(self, sprite: Sprite, width: usize, height: usize) -> Projection {
        let relative_x = diff(sprite.pos.x, self.pos.x);
        let relative_y = diff(sprite.pos.y, self.pos.y);
        let side = ratio(
            diff(prod(self.dir.y, relative_x), prod(self.dir.x, relative_y)),
            self.det,
        );
        let depth = ratio(
            sum(prod(minus(self.plane.y), relative_x), prod(self.plane.x, relative_y)),
            self.det,
        );
        let middle = whole_spec(prod(as_real((width / 2) as i64), sum(ONE, ratio(side, depth))));
        let size = whole_spec(size(ratio(as_real(height as i64), depth)));
        let half = size / 2;
        let left = (middle - half) as i64;
        let bottom = whole_spec(
            diff(
                sum(as_real((height / 2) as i64), prod(as_real(size), sum(self.pos.z, HALF))),
                prod(as_real(size), sprite.pos.z),
            ),
        );
        let rows = Vector2 {
            x: held_between((bottom - size) as i64, 0i64, height as i64),
            y: held_between(bottom, 0i64, height as i64),
        };
        let step = ratio((64 * ONE) as i64, as_real(size));
        Projection {
            depth,
            size,
            left,
            columns: Vector2 {
                x: held_between(left, 0i64, width as i64),
                y: held_between((half + middle) as i64, 0i64, width as i64),
            },
            rows,
            top: prod(
                sum(
                    diff(
                        diff(as_real(rows.x), prod(as_real(size), diff(self.pos.z, sprite.pos.z))),
                        ratio(as_real(height as i64), TWO),
                    ),
                    ratio(as_real(size), TWO),
                ),
                step,
            ),
            step,
        }
    }

    /// Where the camera sees `sprite`, see [`Camera::projected`].
    pub fn project(&self, sprite: &Sprite, width: usize, height: usize) -> (r: Projection)
        requires
            width <= MAX_SIDE,
            height <= MAX_SIDE,
        ensures
            r == self.projected(*sprite, width, height),
            0 <= r.size <= 0x7fff_ffff,
            -0x1_0000_0000 <= r.left <= 0x1_0000_0000,
            0 <= r.columns.x <= width,
            0 <= r.columns.y <= width,
            0 <= r.rows.x <= height,
            0 <= r.rows.y <= height,
            r.columns.x < r.columns.y ==> r.left <= r.columns.x && r.size >= 2,
    {
        reveal(Camera::projected);
        let canvas_width: i64 = width as i64;
        let canvas_height: i64 = height as i64;
        let relative_x: Fixed = fx_sub(sprite.pos.x, self.pos.x);
        let relative_y: Fixed = fx_sub(sprite.pos.y, self.pos.y);
        let transform: Vector2f = Vector2::new(
            fx_div(fx_sub(fx_mul(self.dir.y, relative_x), fx_mul(self.dir.x, relative_y)), self.det),
            fx_div(
                fx_add(fx_mul(fx_neg(self.plane.y), relative_x), fx_mul(self.plane.x, relative_y)),
                self.det,
            ),
        );
        let sprite_canvas_x: i64 = whole(
            fx_mul(fx_from_int(canvas_width / 2), fx_add(ONE, fx_div(transform.x, transform.y))),
        );
        let sprite_size: i64 = whole(fx_abs(fx_div(fx_from_int(canvas_height), transform.y)));
        let half: i64 = sprite_size / 2;
        let left: i64 = sprite_canvas_x - half;
        let x_bounds: Vector2<i64> = Vector2::new(left, half + sprite_canvas_x).clamp(
            0,
            canvas_width,
            0,
            canvas_width,
        );
        let size: Fixed = fx_from_int(sprite_size);
        let draw_end_y: i64 = whole(
            fx_sub(
                fx_add(fx_from_int(canvas_height / 2), fx_mul(size, fx_add(self.pos.z, HALF))),
                fx_mul(size, sprite.pos.z),
            ),
        );
        let y_bounds: Vector2<i64> = Vector2::new(draw_end_y - sprite_size, draw_end_y).clamp(
            0,
            canvas_height,
            0,
            canvas_height,
        );
        let step: Fixed = fx_div(64 * ONE, size);
        let top: Fixed = fx_mul(
            fx_add(
                fx_sub(
                    fx_sub(fx_from_int(y_bounds.x), fx_mul(size, fx_sub(self.pos.z, sprite.pos.z))),
                    fx_div(fx_from_int(canvas_height), TWO),
                ),
                fx_div(size, TWO),
            ),
            step,
        );
        Projection {
            depth: transform.y,
            size: sprite_size,
            left,
            columns: Vector2 { x: x_bounds.x, y: x_bounds.y },
            rows: y_bounds,
            top,
            step,
        }
    }
}

impl Projection {
    /// Whether the sprite is painted in the pixel `(x, y)` if nothing hides
    /// it: it stands in front of the camera, is at least two pixels wide,
    /// and the pixel lies in its square and not in the first column of the
    /// picture.
    pub open spec fn covers(self, x: int, y: int) -> bool {
        &&& self.depth > 0
        &&& self.size >= 2
        &&& self.columns.x <= x < self.columns.y
        &&& x > 0
        &&& self.rows.x <= y < self.rows.y
    }

    /// The column of the tile that the column `x` of the picture shows.
    pub open spec fn tile_column(self, x: int) -> u64 {
        (((x - self.left) * 64) / (self.size as int)) as u64
    }

    /// The row of the tile that the row `y` of the picture shows.
    pub open spec fn tile_row(self, y: int) -> u64 {
        row_spec(row_height(self.top, self.step, y - self.rows.x))
    }
}

/// The texel of `sprite` that the pixel `(x, y)` shows: of the player's
/// pictures the one of the camera's view and of the frame `frame` of the
/// walk, of the sprites the tile of the sprite.
pub open spec fn texel_at(
    textures: Textures,
    frame: u32,
    sprite: Sprite,
    camera: Camera,
    p: Projection,
    x: int,
    y: int,
) -> RGBColor {
    if sprite.is_player {
        textures.soldier_texel(
            (p.tile_column(x) + TILE * camera.view) as u64,
            (p.tile_row(y) + TILE * frame) as u64,
        )
    } else {
        textures.sprite_texel(p.tile_column(x), (p.tile_row(y) + TILE * sprite.value) as u64)
    }
}

/// The colour of the pixel `(x, y)` when `sprite` has been painted over the
/// colour `before`, the pixel showing `seen`.
///
/// The texel of the sprite, made opaque, is painted where the sprite covers
/// the pixel, is no further away than what the pixel shows, the pixel is
/// seen through as many portals as the camera is deep, unless the sprite is
/// the player's, and the texel is not clear. Elsewhere the colour stays.
#[verifier::opaque]
pub open spec fn paint_over(
    before: RGBColor,
    seen: Zdist,
    textures: Textures,
    frame: u32,
    sprite: Sprite,
    camera: Camera,
    p: Projection,
    x: int,
    y: int,
) -> RGBColor {
    let texel = texel_at(textures, frame, sprite, camera, p, x, y);
    if p.covers(x, y) && (camera.depth == seen.portal_depth || sprite.is_player) && p.depth
        <= seen.dist && texel.a != 0 {
        RGBColor { a: 255, ..texel }
    } else {
        before
    }
}

/// Paints `sprite` over the picture `canvas` as `camera` sees it, where
/// `z_buffer` says for each pixel, row after row, what it shows.
pub fn paint(
    canvas: &mut Canvas,
    z_buffer: &Vec<Zdist>,
    textures: &Textures,
    frame: u32,
    sprite: &Sprite,
    camera: &Camera,
)
    requires
        old(canvas).wf(),
        old(canvas).width <= MAX_SIDE,
        old(canvas).height <= MAX_SIDE,
        z_buffer@.len() == old(canvas).width * old(canvas).height,
        textures.wf(),
        camera.view < 8,
    ensures
        final(canvas).wf(),
        final(canvas).width == old(canvas).width,
        final(canvas).height == old(canvas).height,
        forall|x: int, y: int|
            0 <= x < old(canvas).width && 0 <= y < old(canvas).height ==> #[trigger] final(canvas).pixel(
                x,
                y,
            ) == paint_over(
                old(canvas).pixel(x, y),
                z_buffer@[y * old(canvas).width + x],
                *textures,
                frame,
                *sprite,
                *camera,
                camera.projected(*sprite, old(canvas).width, old(canvas).height),
                x,
                y,
            ),
{
    reveal(paint_over);
    let width: usize = canvas.width;
    let height: usize = canvas.height;
    let p: Projection = camera.project(sprite, width, height);
    if p.depth <= 0 || p.size < 2 {
        return ;
    }
    let mut x: i64 = p.columns.x;
    while x < p.columns.y
        invariant
            canvas.wf(),
            canvas.width == width,
            canvas.height == height,
            width == old(canvas).width,
            height == old(canvas).height,
            width <= MAX_SIDE,
            height <= MAX_SIDE,
            z_buffer@.len() == width * height,
            textures.wf(),
            camera.view < 8,
            p == camera.projected(*sprite, width, height),
            p.depth > 0,
            p.size >= 2,
            p.size <= 0x7fff_ffff,
            -0x1_0000_0000 <= p.left <= 0x1_0000_0000,
            0 <= p.columns.x <= x,
            p.columns.y <= width,
            p.columns.x < p.columns.y ==> p.left <= p.columns.x,
            0 <= p.rows.x,
            p.rows.y <= height,
            forall|i: int, j: int|
                0 <= i < width && 0 <= j < height ==> #[trigger] canvas.pixel(i, j) == (if i < x {
                    paint_over(
                        old(canvas).pixel(i, j),
                        z_buffer@[j * width + i],
                        *textures,
                        frame,
                        *sprite,
                        *camera,
                        p,
                        i,
                        j,
                    )
                } else {
                    old(canvas).pixel(i, j)
                }),
        decreases p.columns.y - x,
    {
        reveal(paint_over);
        if x > 0 {
            let text_x: u64 = (((x - p.left) * 64) / p.size) as u64;
            let mut text_pos: Fixed = p.top;
            let mut y: i64 = p.rows.x;
            while y < p.rows.y
                invariant
                    canvas.wf(),
                    canvas.width == width,
                    canvas.height == height,
                    width == old(canvas).width,
                    height == old(canvas).height,
                    z_buffer@.len() == width * height,
                    textures.wf(),
                    camera.view < 8,
                    p == camera.projected(*sprite, width, height),
                    p.depth > 0,
                    p.size >= 2,
                    0 < x < width,
                    p.columns.x <= x < p.columns.y,
                    0 <= p.rows.x <= y,
                    p.rows.y <= height,
                    text_x == p.tile_column(x as int),
                    text_x <= 0x1_0000_0000_0000,
                    text_pos == row_height(p.top, p.step, y - p.rows.x),
                    forall|i: int, j: int|
                        0 <= i < width && 0 <= j < height ==> #[trigger] canvas.pixel(i, j) == (if i
                            < x || (i == x && j < y) {
                            paint_over(
                                old(canvas).pixel(i, j),
                                z_buffer@[j * width + i],
                                *textures,
                                frame,
                                *sprite,
                                *camera,
                                p,
                                i,
                                j,
                            )
                        } else {
                            old(canvas).pixel(i, j)
                        }),
                decreases p.rows.y - y,
            {
                reveal(paint_over);
                let text_y: u64 = row_of(text_pos);

                text_pos = fx_add(text_pos, p.step);
                proof {
                    lemma_offset_in_range(x as int, y as int, width as int, height as int);
                }
                let total: usize = z_buffer.len();
                let seen: Zdist = z_buffer[y as usize * width + x as usize];
                let ghost before = *canvas;
                if (camera.depth == seen.portal_depth || sprite.is_player) && p.depth <= seen.dist {
                    let color: RGBColor = if sprite.is_player {
                        textures.get_soldier_pixel(
                            text_x + TILE * camera.view,
                            text_y + TILE * (frame as u64),
                        )
                    } else {
                        textures.get_sprite_pixel(text_x, text_y + TILE * (sprite.value as u64))
                    };
                    if color.a != 0 {
                        canvas.put_pixel(x as usize, y as usize, color);
                    }
                }
                proof {
                    assert forall|i: int, j: int| 0 <= i < width && 0 <= j < height implies (
                    #[trigger] canvas.pixel(i, j)) == (if i < x || (i == x && j < y + 1) {
                        paint_over(
                            old(canvas).pixel(i, j),
                            z_buffer@[j * width + i],
                            *textures,
                            frame,
                            *sprite,
                            *camera,
                            p,
                            i,
                            j,
                        )
                    } else {
                        old(canvas).pixel(i, j)
                    }) by {
                        if i != x || j != y {
                            lemma_apart(i, j, x as int, y as int, width as int, height as int);
                            assert(canvas.pixel(i, j) == before.pixel(i, j));
                        }
                    }
                }
                y += 1;
            }
        } else {
            assert forall|j: int| 0 <= j < height implies !p.covers(x as int, j) by {
            }
        }
        proof {
            assert forall|i: int, j: int| 0 <= i < width && 0 <= j < height implies (
            #[trigger] canvas.pixel(i, j)) == (if i < x + 1 {
                paint_over(
                    old(canvas).pixel(i, j),
                    z_buffer@[j * width + i],
                    *textures,
                    frame,
                    *sprite,
                    *camera,
                    p,
                    i,
                    j,
                )
            } else {
                old(canvas).pixel(i, j)
            }) by {
            }
        }
        x += 1;
    }
}

/// Two pixels of a picture share no byte of its buffer.
pub proof fn lemma_apart(i: int, j: int, x: int, y: int, width: int, height: int)
    requires
        0 <= i < width,
        0 <= j < height,
        0 <= x < width,
        0 <= y < height,
        i != x || j != y,
    ensures
        offset(i, j, width) + 4 <= offset(x, y, width) || offset(x, y, width) + 4 <= offset(
            i,
            j,
            width,
        ),
        0 <= offset(i, j, width),
        offset(i, j, width) + 4 <= width * height * 4,
{
    assert(j * width + i != y * width + x) by (nonlinear_arith)
        requires
            0 <= i < width,
            0 <= x < width,
            0 <= j,
            0 <= y,
            i != x || j != y,
    ;
    lemma_offset_in_range(i, j, width, height);
    lemma_offset_in_range(x, y, width, height);
}

} // verus!
