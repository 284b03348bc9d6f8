//! What a place of the grid holds.
use vstd::prelude::*;
use crate::direction::Direction;
use crate::fixed::{Fixed, ONE};
use crate::json::{flag, flag_of, member, member_of, text, text_of};
use crate::loader::{read_real, read_unsigned, real_member, unsigned_member};
use crate::cell::door::Door;
use crate::cell::thinwall::ThinWall;

pub mod door;
pub mod laws;
pub mod thinwall;

verus! {

/// The lowest texture number that makes a thin wall a door.
pub const DOOR_VALUE: u32 = 13;

/// Something the player can set off, and that moves with time.
pub trait Interaction: Sized {
    /// The object after a trigger.
    spec fn triggered(self) -> Self;

    /// The object after `delta` seconds.
    spec fn updated(self, delta: int) -> Self;

    /// What holds of the object at any time.
    spec fn valid(self) -> bool;

    /// Sets the object off.
    fn trigger(&mut self)
        requires
            old(self).valid(),
        ensures
            *final(self) == old(self).triggered(),
            final(self).valid(),
    ;

    /// Lets `delta` seconds pass.
    fn update(&mut self, delta: Fixed)
        requires
            old(self).valid(),
        ensures
            *final(self) == old(self).updated(delta as int),
            final(self).valid(),
    ;
}

/// A panel on one face of its cell.
pub trait Thin: Interaction {
    /// The texture of the panel.
    spec fn thin_value(self) -> u32;

    /// The face of the cell the panel stands on.
    spec fn thin_dir(self) -> Direction;

    /// How much of the cell's width the panel covers.
    spec fn thin_slide(self) -> Fixed;

    /// How far the panel stands from the far face of its cell.
    spec fn thin_depth(self) -> Fixed;

    /// Whether a trigger pushes the panel in.
    spec fn thin_pushable(self) -> bool;

    /// The texture of the panel.
    fn value(&self) -> (r: u32)
        ensures
            r == self.thin_value(),
    ;

    /// The face of the cell the panel stands on.
    fn dir(&self) -> (r: Direction)
        ensures
            r == self.thin_dir(),
    ;

    /// How much of the cell's width the panel covers, from 0 to 1.
    fn slide(&self) -> (r: Fixed)
        requires
            self.valid(),
        ensures
            r == self.thin_slide(),
            0 <= r <= ONE,
    ;

    /// How far the panel stands from the far face of its cell, from 0 to 1.
    fn depth(&self) -> (r: Fixed)
        requires
            self.valid(),
        ensures
            r == self.thin_depth(),
            0 <= r <= ONE,
    ;

    /// Whether a trigger pushes the panel in.
    fn pushable(&self) -> (r: bool)
        ensures
            r == self.thin_pushable(),
    ;
}

/// The two kinds of panel.
#[derive(Clone, Copy, Debug, PartialEq, Eq, Structural)]
pub enum ThinObject {
    Door(Door),
    Panel(ThinWall),
}

impl Interaction for ThinObject {
    open spec fn triggered(self) -> ThinObject {
        match self {
            ThinObject::Door(door) => ThinObject::Door(door.triggered()),
            ThinObject::Panel(wall) => ThinObject::Panel(wall.triggered()),
        }
    }

    open spec fn updated(self, delta: int) -> ThinObject {
        match self {
            ThinObject::Door(door) => ThinObject::Door(door.updated(delta)),
            ThinObject::Panel(wall) => ThinObject::Panel(wall.updated(delta)),
        }
    }

    open spec fn valid(self) -> bool {
        match self {
            ThinObject::Door(door) => door.valid(),
            ThinObject::Panel(wall) => wall.valid(),
        }
    }

    fn trigger(&mut self) {
        match self {
            ThinObject::Door(door) => door.trigger(),
            ThinObject::Panel(wall) => wall.trigger(),
        }
    }

    fn update(&mut self, delta: Fixed) {
        match self {
            ThinObject::Door(door) => door.update(delta),
            ThinObject::Panel(wall) => wall.update(delta),
        }
    }
}

impl Thin for ThinObject {
    open spec fn thin_value(self) -> u32 {
        match self {
            ThinObject::Door(door) => door.thin_value(),
            ThinObject::Panel(wall) => wall.thin_value(),
        }
    }

    open spec fn thin_dir(self) -> Direction {
        match self {
            ThinObject::Door(door) => door.thin_dir(),
            ThinObject::Panel(wall) => wall.thin_dir(),
        }
    }

    open spec fn thin_slide(self) -> Fixed {
        match self {
            ThinObject::Door(door) => door.thin_slide(),
            ThinObject::Panel(wall) => wall.thin_slide(),
        }
    }

    open spec fn thin_depth(self) -> Fixed {
        match self {
            ThinObject::Door(door) => door.thin_depth(),
            ThinObject::Panel(wall) => wall.thin_depth(),
        }
    }

    open spec fn thin_pushable(self) -> bool {
        match self {
            ThinObject::Door(door) => door.thin_pushable(),
            ThinObject::Panel(wall) => wall.thin_pushable(),
        }
    }

    fn value(&self) -> u32 {
        match self {
            ThinObject::Door(door) => door.value(),
            ThinObject::Panel(wall) => wall.value(),
        }
    }

    fn dir(&self) -> Direction {
        match self {
            ThinObject::Door(door) => door.dir(),
            ThinObject::Panel(wall) => wall.dir(),
        }
    }

    fn slide(&self) -> Fixed {
        match self {
            ThinObject::Door(door) => door.slide(),
            ThinObject::Panel(wall) => wall.slide(),
        }
    }

    fn depth(&self) -> Fixed {
        match self {
            ThinObject::Door(door) => door.depth(),
            ThinObject::Panel(wall) => wall.depth(),
        }
    }

    fn pushable(&self) -> bool {
        match self {
            ThinObject::Door(door) => door.pushable(),
            ThinObject::Panel(wall) => wall.pushable(),
        }
    }
}

/// What one place of the grid holds.
#[derive(Clone, Copy, Debug, PartialEq, Eq, Structural)]
pub enum Cell {
    /// Air.
    Empty,
    /// A block that fills its place up to `height`, a fraction above zero.
    Wall { value: u32, height: Fixed },
    /// A panel on one face of the place.
    Thin(ThinObject),
}

impl Cell {
    /// A cell is well formed when a wall's height is above 0 and at most 1,
    /// and a panel is valid.
    pub open spec fn wf(self) -> bool {
        match self {
            Cell::Empty => true,
            Cell::Wall { value, height } => 0 < height <= ONE,
            Cell::Thin(thin) => thin.valid(),
        }
    }

    /// A thin cell from what a map file says of it: a door where the texture
    /// is a door's, else a thin wall.
    pub fn thin(value: u32, dir: Direction, pushable: bool) -> (r: Cell)
        ensures
            r == (if value >= DOOR_VALUE {
                Cell::Thin(ThinObject::Door(Door::new_spec(value, dir)))
            } else {
                Cell::Thin(ThinObject::Panel(ThinWall::new_spec(value, dir, pushable)))
            }),
            r.wf(),
    {
        if value >= DOOR_VALUE {
            Cell::Thin(ThinObject::Door(Door::new(value, dir)))
        } else {
            Cell::Thin(ThinObject::Panel(ThinWall::new(value, dir, pushable)))
        }
    }

    /// The cell that a map file describes by a texture number, by a face and
    /// whether it can be pushed if it is thin, and by a height if it is not.
    ///
    /// The texture is taken modulo 2 to the power of 32. A thin cell is a
    /// door from [`DOOR_VALUE`] on. A wall needs a height above 0 and at most
    /// 1; without one there is no cell.
    pub open spec fn of_parts(value: u64, thin: Option<(Direction, bool)>, height: Option<Fixed>)
        -> Option<Cell> {
        let texture = (value % 0x1_0000_0000) as u32;
        match thin {
            Some((dir, pushable)) => Some(
                if texture >= DOOR_VALUE {
                    Cell::Thin(ThinObject::Door(Door::new_spec(texture, dir)))
                } else {
                    Cell::Thin(ThinObject::Panel(ThinWall::new_spec(texture, dir, pushable)))
                },
            ),
            None => match height {
                Some(h) => if 0 < h <= ONE {
                    Some(Cell::Wall { value: texture, height: h })
                } else {
                    None
                },
                None => None,
            },
        }
    }

    /// The cell that a map file describes, or nothing for a wall without a
    /// height above 0 and at most 1.
    pub fn from_parts(value: u64, thin: Option<(Direction, bool)>, height: Option<Fixed>) -> (r:
        Option<Cell>)
        ensures
            r == Cell::of_parts(value, thin, height),
            r matches Some(cell) ==> cell.wf(),
    {
        let texture: u32 = (value % 0x1_0000_0000) as u32;
        match thin {
            Some((dir, pushable)) => Some(Cell::thin(texture, dir, pushable)),
            None => match height {
                Some(h) => if 0 < h && h <= ONE {
                    Some(Cell::Wall { value: texture, height: h })
                } else {
                    None
                },
                None => None,
            },
        }
    }

    /// The cell that the JSON object `json` describes, or nothing where it
    /// describes none.
    ///
    /// The member `value` is the texture. An object with a member `thin`,
    /// whatever it holds, is a thin cell, and needs the name of its face in
    /// `direction` and a boolean in `pushable`. Any other object is a wall
    /// and needs its `height`.
    pub open spec fn read(json: serde_json::Value) -> Option<Cell> {
        match unsigned_member(json, "value"@) {
            None => None,
            Some(value) => {
                if member_of(json, "thin"@) is Some {
                    match (member_of(json, "direction"@), member_of(json, "pushable"@)) {
                        (Some(d), Some(p)) => match (text_of(d), flag_of(p)) {
                            (Some(name), Some(pushable)) => Cell::of_parts(
                                value,
                                Some((Direction::named(name), pushable)),
                                None,
                            ),
                            _ => None,
                        },
                        _ => None,
                    }
                } else {
                    Cell::of_parts(value, None, real_member(json, "height"@))
                }
            },
        }
    }

    /// Reads a cell from its JSON object.
    pub fn from_json(json: &serde_json::Value) -> (r: Option<Cell>)
        ensures
            r == Cell::read(*json),
            r matches Some(cell) ==> cell.wf(),
    {
        let value: u64 = match read_unsigned(json, "value") {
            Some(v) => v,
            None => {
                return None;
            },
        };
        if member(json, "thin").is_some() {
            let name: &str = match member(json, "direction") {
                Some(d) => match text(d) {
                    Some(name) => name,
                    None => {
                        return None;
                    },
                },
                None => {
                    return None;
                },
            };
            let pushable: bool = match member(json, "pushable") {
                Some(p) => match flag(p) {
                    Some(pushable) => pushable,
                    None => {
                        return None;
                    },
                },
                None => {
                    return None;
                },
            };
            Cell::from_parts(value, Some((Direction::from_str(name), pushable)), None)
        } else {
            Cell::from_parts(value, None, read_real(json, "height"))
        }
    }

    /// The texture of the cell, 0 for air.
    pub open spec fn value_spec(self) -> u32 {
        match self {
            Cell::Empty => 0u32,
            Cell::Wall { value, height } => value,
            Cell::Thin(thin) => thin.thin_value(),
        }
    }

    /// The texture of the cell, 0 for air.
    pub fn value(&self) -> (r: u32)
        ensures
            r == self.value_spec(),
    {
        match self {
            Cell::Empty => 0,
            Cell::Wall { value, .. } => *value,
            Cell::Thin(thin) => thin.value(),
        }
    }

    /// The height of the cell: -1 for air, 1 for a panel.
    pub open spec fn height_spec(self) -> Fixed {
        match self {
            Cell::Empty => -1_000_000i64,
            Cell::Wall { value, height } => height,
            Cell::Thin(thin) => ONE,
        }
    }

    /// The height of the cell: -1 for air, 1 for a panel.
    pub fn height(&self) -> (r: Fixed)
        ensures
            r == self.height_spec(),
    {
        match self {
            Cell::Empty => -ONE,
            Cell::Wall { height, .. } => *height,
            Cell::Thin(_) => ONE,
        }
    }
}

impl Interaction for Cell {
    /// Only a panel answers a trigger.
    open spec fn triggered(self) -> Cell {
        match self {
            Cell::Thin(thin) => Cell::Thin(thin.triggered()),
            _ => self,
        }
    }

    /// Only a panel moves. A pushable panel that has gone all the way in
    /// leaves air behind.
    open spec fn updated(self, delta: int) -> Cell {
        match self {
            Cell::Thin(thin) => {
                let moved = thin.updated(delta);
                if moved.thin_pushable() && moved.thin_depth() <= 0 {
                    Cell::Empty
                } else {
                    Cell::Thin(moved)
                }
            },
            _ => self,
        }
    }

    open spec fn valid(self) -> bool {
        self.wf()
    }

    fn trigger(&mut self) {
        match self {
            Cell::Thin(thin) => {
                thin.trigger();
            },
            _ => {},
        }
    }

    fn update(&mut self, delta: Fixed) {
        let mut gone: bool = false;
        match self {
            Cell::Thin(thin) => {
                thin.update(delta);
                gone = thin.pushable() && thin.depth() <= 0;
            },
            _ => {},
        }
        if gone {
            *self = Cell::Empty;
        }
    }
}

impl Default for Cell {
    fn default() -> (r: Cell)
        ensures
            r == Cell::Empty,
    {
        Cell::Empty
    }
}

} // verus!
