//! The pictures that walls, portals and sprites are painted with.
use vstd::prelude::*;
use crate::color::RGBColor;
use crate::fixed::{Fixed, floor_int_spec, mul_spec, fx_floor_int, fx_mul};

verus! {

/// The width and the height of one tile of an atlas, in texels.
pub const TILE: u64 = 64;

/// A picture made of tiles: rows of texels, four bytes each.
pub struct Atlas {
    pub width: usize,
    pub height: usize,
    pub pixels: Vec<u8>,
}

/// The four atlases of the game.
pub struct Textures {
    /// The walls: one row of tiles for each texture, the bright variant in
    /// the first column of tiles and the dark one in the second.
    pub walls: Atlas,
    /// The one tile of a portal: white where the wall shows, opaque on the
    /// frame, translucent in the middle.
    pub portal: Atlas,
    /// The sprites: one row of tiles for each.
    pub sprites: Atlas,
    /// The player: one column of tiles for each of eight views, one row for
    /// each frame of the walk.
    pub soldier: Atlas,
}

/// The place of a point of a face, whose coordinates are fractions, on a
/// tile: each coordinate times the size of a tile, without what is behind the
/// point.
pub open spec fn texel_spec(x: Fixed, y: Fixed) -> (u64, u64) {
    (
        floor_int_spec(mul_spec(x as int, TILE * 1_000_000)) as u64,
        floor_int_spec(mul_spec(y as int, TILE * 1_000_000)) as u64,
    )
}

/// The place on a tile of the point `(x, y)` of a face, both fractions.
pub fn get_texture_coord(x: Fixed, y: Fixed) -> (r: (u64, u64))
    requires
        0 <= x < 1_000_000,
        0 <= y < 1_000_000,
    ensures
        r == texel_spec(x, y),
        r.0 < TILE,
        r.1 < TILE,
{
    let tx: i64 = fx_floor_int(fx_mul(x, 64_000_000));
    let ty: i64 = fx_floor_int(fx_mul(y, 64_000_000));
    (tx as u64, ty as u64)
}

impl Atlas {
    /// An atlas is well formed when it holds four bytes for each texel.
    pub open spec fn wf(self) -> bool {
        self.pixels@.len() == self.width * self.height * 4
    }

    /// The texel `(x, y)`, or nothing outside the atlas.
    pub open spec fn texel(self, x: u64, y: u64) -> Option<RGBColor> {
        if x < self.width && y < self.height {
            let at = (y * self.width + x) * 4;
            Some(
                RGBColor {
                    r: self.pixels@[at],
                    g: self.pixels@[at + 1],
                    b: self.pixels@[at + 2],
                    a: self.pixels@[at + 3],
                },
            )
        } else {
            None
        }
    }

    /// The atlas of `width` by `height` texels that `pixels` holds, or
    /// nothing where `pixels` has not four bytes for each texel.
    pub fn new(width: usize, height: usize, pixels: Vec<u8>) -> (r: Option<Atlas>)
        ensures
            r is Some == (pixels@.len() == width * height * 4),
            r matches Some(atlas) ==> atlas.wf() && atlas.width == width && atlas.height == height
                && atlas.pixels == pixels,
    {
        let len: usize = pixels.len();
        let texels: Option<usize> = width.checked_mul(height);
        match texels {
            Some(count) => {
                match count.checked_mul(4) {
                    Some(bytes) => {
                        if len == bytes {
                            Some(Atlas { width, height, pixels })
                        } else {
                            None
                        }
                    },
                    None => None,
                }
            },
            None => {
                proof {
                    assert(width * height * 4 >= width * height) by (nonlinear_arith)
                        requires
                            width * height >= 0,
                    ;
                }
                None
            },
        }
    }

    /// The texel `(x, y)`, or nothing outside the atlas.
    pub fn pixel(&self, x: u64, y: u64) -> (r: Option<RGBColor>)
        requires
            self.wf(),
        ensures
            r == self.texel(x, y),
    {
        if x as u128 >= self.width as u128 || y as u128 >= self.height as u128 {
            return None;
        }
        proof {
            crate::canvas::lemma_offset_in_range(
                x as int,
                y as int,
                self.width as int,
                self.height as int,
            );
        }
        let total: usize = self.pixels.len();
        let at: usize = (y as usize * self.width + x as usize) * 4;
        Some(
            RGBColor {
                r: self.pixels[at],
                g: self.pixels[at + 1],
                b: self.pixels[at + 2],
                a: self.pixels[at + 3],
            },
        )
    }
}

impl Textures {
    /// The textures are well formed when each atlas is.
    pub open spec fn wf(self) -> bool {
        &&& self.walls.wf()
        &&& self.portal.wf()
        &&& self.sprites.wf()
        &&& self.soldier.wf()
    }

    /// The texel `(x, y)` of the walls; opaque black outside the atlas.
    pub open spec fn wall_texel(self, x: u64, y: u64) -> RGBColor {
        match self.walls.texel(x, y) {
            Some(color) => color,
            None => RGBColor { r: 0, g: 0, b: 0, a: 255 },
        }
    }

    /// The texel `(x, y)` of the portal; white, which lets the wall show,
    /// outside the atlas.
    pub open spec fn portal_texel(self, x: u64, y: u64) -> RGBColor {
        match self.portal.texel(x, y) {
            Some(color) => color,
            None => RGBColor { r: 255, g: 255, b: 255, a: 255 },
        }
    }

    /// The texel `(x, y)` of the sprites; clear outside the atlas.
    pub open spec fn sprite_texel(self, x: u64, y: u64) -> RGBColor {
        match self.sprites.texel(x, y) {
            Some(color) => color,
            None => RGBColor { r: 0, g: 0, b: 0, a: 0 },
        }
    }

    /// The texel `(x, y)` of the player's pictures; clear outside the atlas.
    pub open spec fn soldier_texel(self, x: u64, y: u64) -> RGBColor {
        match self.soldier.texel(x, y) {
            Some(color) => color,
            None => RGBColor { r: 0, g: 0, b: 0, a: 0 },
        }
    }

    /// The texel `(x, y)` of the walls; opaque black outside the atlas.
    pub fn get_wall_pixel(&self, x: u64, y: u64) -> (r: RGBColor)
        requires
            self.wf(),
        ensures
            r == self.wall_texel(x, y),
    {
        match self.walls.pixel(x, y) {
            Some(color) => color,
            None => RGBColor { r: 0, g: 0, b: 0, a: 255 },
        }
    }

    /// The texel `(x, y)` of the portal; white outside the atlas.
    pub fn get_portal_pixel(&self, x: u64, y: u64) -> (r: RGBColor)
        requires
            self.wf(),
        ensures
            r == self.portal_texel(x, y),
    {
        match self.portal.pixel(x, y) {
            Some(color) => color,
            None => RGBColor::white(),
        }
    }

    /// The texel `(x, y)` of the sprites; clear outside the atlas.
    pub fn get_sprite_pixel(&self, x: u64, y: u64) -> (r: RGBColor)
        requires
            self.wf(),
        ensures
            r == self.sprite_texel(x, y),
    {
        match self.sprites.pixel(x, y) {
            Some(color) => color,
            None => RGBColor { r: 0, g: 0, b: 0, a: 0 },
        }
    }

    /// The texel `(x, y)` of the player's pictures; clear outside the atlas.
    pub fn get_soldier_pixel(&self, x: u64, y: u64) -> (r: RGBColor)
        requires
            self.wf(),
        ensures
            r == self.soldier_texel(x, y),
    {
        match self.soldier.pixel(x, y) {
            Some(color) => color,
            None => RGBColor { r: 0, g: 0, b: 0, a: 0 },
        }
    }
}

} // verus!
