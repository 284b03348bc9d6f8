//! Portals: faces that lead to another face.
use vstd::prelude::*;
use crate::color::HSLColor;
use crate::direction::Direction;
use crate::fixed::{Fixed, ONE, BOUND, QUARTER_TURN, add_spec, sub_spec, fx_add, fx_sub};
use crate::json::{is_object, is_object_of, member, member_of, text, text_of};
use crate::loader::{read_unsigned, real_of, to_real, unsigned_member};
use crate::vectors::Vector3f;

verus! {

/// One side of a portal: a face of a cell, with the hue of its frame.
#[derive(Clone, Copy, Debug, PartialEq, Eq, Structural)]
pub struct Portal {
    /// The cell, in whole coordinates.
    pub pos: Vector3f,
    /// The face of the cell that the portal is on.
    pub dir: Direction,
    /// The tint of the frame; only the hue is set.
    pub hsl: HSLColor,
}

/// One of four values by the side that `dir` names, and 0 for a direction
/// that is no side.
pub open spec fn by_side(dir: Direction, north: int, west: int, south: int, east: int) -> int {
    match dir {
        Direction::North => north,
        Direction::West => west,
        Direction::South => south,
        Direction::East => east,
        _ => 0,
    }
}

impl Portal {
    /// The portal on the face `dir` of the cell `pos`, tinted by `hue` degrees.
    pub fn new(pos: Vector3f, dir: Direction, hue: Fixed) -> (r: Portal)
        ensures
            r == (Portal { pos, dir, hsl: HSLColor { h: hue, s: 0, l: 0 } }),
    {
        Portal { pos, dir, hsl: HSLColor::new(hue, 0, 0) }
    }

    /// The portal that a map file describes by the whole coordinates of its
    /// cell, its hue in whole degrees and the name of its face.
    pub open spec fn of_parts(x: u64, y: u64, z: u64, hue: u64, name: Seq<char>) -> Portal {
        Portal {
            pos: Vector3f { x: real_of(x), y: real_of(y), z: real_of(z) },
            dir: Direction::named(name),
            hsl: HSLColor { h: real_of(hue), s: 0, l: 0 },
        }
    }

    /// The portal that a map file describes.
    pub fn from_parts(x: u64, y: u64, z: u64, hue: u64, name: &str) -> (r: Portal)
        ensures
            r == Portal::of_parts(x, y, z, hue, name@),
    {
        Portal::new(
            Vector3f::new(to_real(x), to_real(y), to_real(z)),
            Direction::from_str(name),
            to_real(hue),
        )
    }

    /// The side of a portal that `json` describes: no side where `json` is
    /// no object, and nothing at all where it is an object that lacks
    /// something. An object needs the unsigned integers `x`, `y` and `z` in
    /// its member `pos`, the unsigned integer `hue`, and the string
    /// `direction`.
    pub open spec fn read(json: serde_json::Value) -> Option<Option<Portal>> {
        if !is_object_of(json) {
            Some(None)
        } else {
            match (member_of(json, "pos"@), unsigned_member(json, "hue"@), member_of(
                json,
                "direction"@,
            )) {
                (Some(pos), Some(hue), Some(d)) => match (
                    unsigned_member(pos, "x"@),
                    unsigned_member(pos, "y"@),
                    unsigned_member(pos, "z"@),
                    text_of(d),
                ) {
                    (Some(x), Some(y), Some(z), Some(name)) => Some(
                        Some(Portal::of_parts(x, y, z, hue, name)),
                    ),
                    _ => None,
                },
                _ => None,
            }
        }
    }

    /// Reads one side of a portal from JSON: `Some(None)` where there is no
    /// side, `None` where the side is malformed.
    pub fn from_json(json: &serde_json::Value) -> (r: Option<Option<Portal>>)
        ensures
            r == Portal::read(*json),
    {
        if !is_object(json) {
            return Some(None);
        }
        let pos: &serde_json::Value = match member(json, "pos") {
            Some(pos) => pos,
            None => {
                return None;
            },
        };
        let hue: u64 = match read_unsigned(json, "hue") {
            Some(hue) => hue,
            None => {
                return None;
            },
        };
        let name: &str = match member(json, "direction") {
            Some(d) => match text(d) {
                Some(name) => name,
                None => {
                    return None;
                },
            },
            None => {
                return None;
            },
        };
        match (read_unsigned(pos, "x"), read_unsigned(pos, "y"), read_unsigned(pos, "z")) {
            (Some(x), Some(y), Some(z)) => Some(Some(Portal::from_parts(x, y, z, hue, name))),
            _ => None,
        }
    }

    /// The number of quarter turns, counted in the negative sense, by which
    /// a heading changes on the way from `rhs` to this portal.
    pub open spec fn link_turns(self, rhs: Portal) -> int {
        2 - (self.dir.rank() - rhs.dir.rank())
    }

    /// The angle in radians by which a heading turns on the way from `rhs` to
    /// this portal: none where the two faces look at each other, half a turn
    /// where they look the same way, a quarter turn to either hand otherwise.
    /// It is always a whole number of quarter turns.
    pub fn link_dir(&self, rhs: &Portal) -> (r: Fixed)
        ensures
            r == -(QUARTER_TURN * self.link_turns(*rhs)),
    {
        let turns: i64 = 2 - (self.dir.index() as i64 - rhs.dir.index() as i64);
        -(QUARTER_TURN * turns)
    }

    /// The first coordinate, on the side of this portal, of the point that is
    /// `camera_pos` on the side of `rhs`.
    ///
    /// Each row of the table is for one face of this portal, each column for
    /// one face of `rhs`. With `mx = rhs.x + 1 - p.x`, `my = rhs.y + 1 - p.y`,
    /// `ox = p.x - rhs.x` and `oy = p.y - rhs.y`:
    ///
    /// | self \ rhs | North | West | South | East |
    /// |---|---|---|---|---|
    /// | North | mx | my | ox | oy |
    /// | West | 1 + oy | 1 + mx | 1 + my | 1 + ox |
    /// | South | ox | oy | mx | my |
    /// | East | -1 + my | -1 + ox | -1 + oy | -1 + mx |
    ///
    /// The entry is added to the first coordinate of this portal's cell.
    pub open spec fn link_x_spec(self, rhs: Portal, p: Vector3f) -> int {
        let mx = sub_spec(add_spec(rhs.pos.x as int, ONE as int), p.x as int);
        let my = sub_spec(add_spec(rhs.pos.y as int, ONE as int), p.y as int);
        let ox = sub_spec(p.x as int, rhs.pos.x as int);
        let oy = sub_spec(p.y as int, rhs.pos.y as int);
        add_spec(
            self.pos.x as int,
            match self.dir {
                Direction::North => by_side(rhs.dir, mx, my, ox, oy),
                Direction::West => add_spec(ONE as int, by_side(rhs.dir, oy, mx, my, ox)),
                Direction::South => by_side(rhs.dir, ox, oy, mx, my),
                Direction::East => add_spec(-ONE, by_side(rhs.dir, my, ox, oy, mx)),
                _ => 0,
            },
        )
    }

    /// The second coordinate, on the side of this portal, of the point that
    /// is `camera_pos` on the side of `rhs`.
    ///
    /// With the names of [`Portal::link_x_spec`]:
    ///
    /// | self \ rhs | North | West | South | East |
    /// |---|---|---|---|---|
    /// | North | -1 + my | -1 + ox | -1 + oy | -1 + mx |
    /// | West | mx | my | ox | oy |
    /// | South | 1 + oy | 1 + mx | 1 + my | 1 + ox |
    /// | East | ox | oy | mx | my |
    ///
    /// The entry is added to the second coordinate of this portal's cell.
    pub open spec fn link_y_spec(self, rhs: Portal, p: Vector3f) -> int {
        let mx = sub_spec(add_spec(rhs.pos.x as int, ONE as int), p.x as int);
        let my = sub_spec(add_spec(rhs.pos.y as int, ONE as int), p.y as int);
        let ox = sub_spec(p.x as int, rhs.pos.x as int);
        let oy = sub_spec(p.y as int, rhs.pos.y as int);
        add_spec(
            self.pos.y as int,
            match self.dir {
                Direction::North => add_spec(-ONE, by_side(rhs.dir, my, ox, oy, mx)),
                Direction::West => by_side(rhs.dir, mx, my, ox, oy),
                Direction::South => add_spec(ONE as int, by_side(rhs.dir, oy, mx, my, ox)),
                Direction::East => by_side(rhs.dir, ox, oy, mx, my),
                _ => 0,
            },
        )
    }

    /// The first coordinate, on the side of this portal, of the point that is
    /// `camera_pos` on the side of `rhs`.
    pub fn link_x(&self, rhs: &Portal, camera_pos: &Vector3f) -> (r: Fixed)
        ensures
            r == self.link_x_spec(*rhs, *camera_pos),
    {
        fx_add(
            self.pos.x,
            match self.dir {
                Direction::North => {
                    match rhs.dir {
                        Direction::North => fx_sub(fx_add(rhs.pos.x, ONE), camera_pos.x),
                        Direction::West => fx_sub(fx_add(rhs.pos.y, ONE), camera_pos.y),
                        Direction::South => fx_sub(camera_pos.x, rhs.pos.x),
                        Direction::East => fx_sub(camera_pos.y, rhs.pos.y),
                        _ => 0,
                    }
                },
                Direction::West => {
                    fx_add(
                        ONE,
                        match rhs.dir {
                            Direction::North => fx_sub(camera_pos.y, rhs.pos.y),
                            Direction::West => fx_sub(fx_add(rhs.pos.x, ONE), camera_pos.x),
                            Direction::South => fx_sub(fx_add(rhs.pos.y, ONE), camera_pos.y),
                            Direction::East => fx_sub(camera_pos.x, rhs.pos.x),
                            _ => 0,
                        },
                    )
                },
                Direction::South => {
                    match rhs.dir {
                        Direction::North => fx_sub(camera_pos.x, rhs.pos.x),
                        Direction::West => fx_sub(camera_pos.y, rhs.pos.y),
                        Direction::South => fx_sub(fx_add(rhs.pos.x, ONE), camera_pos.x),
                        Direction::East => fx_sub(fx_add(rhs.pos.y, ONE), camera_pos.y),
                        _ => 0,
                    }
                },
                Direction::East => {
                    fx_add(
                        -ONE,
                        match rhs.dir {
                            Direction::North => fx_sub(fx_add(rhs.pos.y, ONE), camera_pos.y),
                            Direction::West => fx_sub(camera_pos.x, rhs.pos.x),
                            Direction::South => fx_sub(camera_pos.y, rhs.pos.y),
                            Direction::East => fx_sub(fx_add(rhs.pos.x, ONE), camera_pos.x),
                            _ => 0,
                        },
                    )
                },
                _ => 0,
            },
        )
    }

    /// The second coordinate, on the side of this portal, of the point that
    /// is `camera_pos` on the side of `rhs`.
    pub fn link_y(&self, rhs: &Portal, camera_pos: &Vector3f) -> (r: Fixed)
        ensures
            r == self.link_y_spec(*rhs, *camera_pos),
    {
        fx_add(
            self.pos.y,
            match self.dir {
                Direction::North => {
                    fx_add(
                        -ONE,
                        match rhs.dir {
                            Direction::North => fx_sub(fx_add(rhs.pos.y, ONE), camera_pos.y),
                            Direction::West => fx_sub(camera_pos.x, rhs.pos.x),
                            Direction::South => fx_sub(camera_pos.y, rhs.pos.y),
                            Direction::East => fx_sub(fx_add(rhs.pos.x, ONE), camera_pos.x),
                            _ => 0,
                        },
                    )
                },
                Direction::West => {
                    match rhs.dir {
                        Direction::North => fx_sub(fx_add(rhs.pos.x, ONE), camera_pos.x),
                        Direction::West => fx_sub(fx_add(rhs.pos.y, ONE), camera_pos.y),
                        Direction::South => fx_sub(camera_pos.x, rhs.pos.x),
                        Direction::East => fx_sub(camera_pos.y, rhs.pos.y),
                        _ => 0,
                    }
                },
                Direction::South => {
                    fx_add(
                        ONE,
                        match rhs.dir {
                            Direction::North => fx_sub(camera_pos.y, rhs.pos.y),
                            Direction::West => fx_sub(fx_add(rhs.pos.x, ONE), camera_pos.x),
                            Direction::South => fx_sub(fx_add(rhs.pos.y, ONE), camera_pos.y),
                            Direction::East => fx_sub(camera_pos.x, rhs.pos.x),
                            _ => 0,
                        },
                    )
                },
                Direction::East => {
                    match rhs.dir {
                        Direction::North => fx_sub(camera_pos.x, rhs.pos.x),
                        Direction::West => fx_sub(camera_pos.y, rhs.pos.y),
                        Direction::South => fx_sub(fx_add(rhs.pos.x, ONE), camera_pos.x),
                        Direction::East => fx_sub(fx_add(rhs.pos.y, ONE), camera_pos.y),
                        _ => 0,
                    }
                },
                _ => 0,
            },
        )
    }
}

/// A coordinate small enough that the sums of a portal crossing stay within
/// the bounds of a real, and so are exact: a million million cells.
pub open spec fn within_reach(v: int) -> bool {
    -1_000_000_000_000_000_000 <= v <= 1_000_000_000_000_000_000
}

/// Crossing a pair of portals and crossing back leads to the starting point.
///
/// For two portals `a` and `b` on side faces and a point `p`, all within
/// reach: the point that `p` becomes on the way from `a` to `b`, taken back
/// from `b` to `a`, is `p` again in both coordinates, and the two turns add up
/// to one full turn.
pub proof fn lemma_link_round_trip(a: Portal, b: Portal, p: Vector3f)
    requires
        a.dir.is_side_spec(),
        b.dir.is_side_spec(),
        within_reach(a.pos.x as int),
        within_reach(a.pos.y as int),
        within_reach(b.pos.x as int),
        within_reach(b.pos.y as int),
        within_reach(p.x as int),
        within_reach(p.y as int),
    ensures
        ({
            let there = Vector3f {
                x: b.link_x_spec(a, p) as i64,
                y: b.link_y_spec(a, p) as i64,
                z: p.z,
            };
            &&& a.link_x_spec(b, there) == p.x
            &&& a.link_y_spec(b, there) == p.y
            &&& b.link_turns(a) + a.link_turns(b) == 4
        }),
{
}

/// A heading that is turned on the way through a pair of portals, and
/// turned again on the way back, is the same heading again.
pub proof fn lemma_link_turns_back(a: Portal, b: Portal, heading: crate::vectors::Vector2f)
    requires
        -BOUND <= heading.x,
        -BOUND <= heading.y,
    ensures
        heading.rotated(-(QUARTER_TURN * b.link_turns(a))).rotated(
            -(QUARTER_TURN * a.link_turns(b)),
        ) == heading,
{
    let j = -b.link_turns(a);
    let k = -a.link_turns(b);
    assert(j + k == -4);
    assert(j * QUARTER_TURN == -(QUARTER_TURN * b.link_turns(a))) by (nonlinear_arith)
        requires
            j == -b.link_turns(a),
    ;
    assert(k * QUARTER_TURN == -(QUARTER_TURN * a.link_turns(b))) by (nonlinear_arith)
        requires
            k == -a.link_turns(b),
    ;
    crate::vectors::lemma_turns_cancel(heading, j, k);
}

} // verus!
