//! The faces of a grid cell.
use vstd::prelude::*;
use crate::text::same_text;

verus! {

/// A face of a cell, or `Unset` where no face has been crossed yet.
///
/// The variants are ordered as they are written: `Unset` first, then the four
/// sides, then `Up` and `Down`.
#[derive(Clone, Copy, Debug, PartialEq, Eq, Structural, PartialOrd, Ord)]
pub enum Direction {
    Unset,
    North,
    West,
    South,
    East,
    Up,
    Down,
}

impl Direction {
    /// The place of the variant in the order, from 0 for `Unset` to 6 for `Down`.
    pub open spec fn rank(self) -> int {
        match self {
            Direction::Unset => 0,
            Direction::North => 1,
            Direction::West => 2,
            Direction::South => 3,
            Direction::East => 4,
            Direction::Up => 5,
            Direction::Down => 6,
        }
    }

    /// Whether the direction is one of the four sides of a cell.
    pub open spec fn is_side_spec(self) -> bool {
        self == Direction::North || self == Direction::West || self == Direction::South || self
            == Direction::East
    }

    /// Whether a face with this normal takes the bright variant of a
    /// texture.
    pub open spec fn under_light(self) -> bool {
        self == Direction::North || self == Direction::South || self == Direction::Up
    }

    /// The direction that a map file's text names.
    pub open spec fn named(name: Seq<char>) -> Direction {
        if name == "North"@ || name == "North/South"@ {
            Direction::North
        } else if name == "West"@ || name == "East/West"@ {
            Direction::West
        } else if name == "South"@ {
            Direction::South
        } else if name == "East"@ {
            Direction::East
        } else {
            Direction::Unset
        }
    }

    /// Reads a direction from its name. A wall that looks the same from both
    /// sides is stored by its axis, and stands for the north or west half.
    /// Any other text gives `Unset`.
    pub fn from_str(str: &str) -> (r: Direction)
        ensures
            r == Direction::named(str@),
    {
        if same_text(str, "North") || same_text(str, "North/South") {
            Direction::North
        } else if same_text(str, "West") || same_text(str, "East/West") {
            Direction::West
        } else if same_text(str, "South") {
            Direction::South
        } else if same_text(str, "East") {
            Direction::East
        } else {
            Direction::Unset
        }
    }

    /// The rank as a number.
    pub fn index(&self) -> (r: i32)
        ensures
            r == self.rank(),
    {
        match self {
            Direction::Unset => 0,
            Direction::North => 1,
            Direction::West => 2,
            Direction::South => 3,
            Direction::East => 4,
            Direction::Up => 5,
            Direction::Down => 6,
        }
    }

    /// Whether the direction is one of the four sides of a cell: north,
    /// west, south or east.
    pub fn is_side(&self) -> (r: bool)
        ensures
            r == self.is_side_spec(),
            r == (Direction::Unset.rank() < self.rank() < Direction::Up.rank()),
    {
        let rank: i32 = self.index();
        0 < rank && rank < 5
    }

    /// Whether a face with this normal takes the bright variant of a texture:
    /// north, south and up do, the others take the dark one.
    pub fn is_under_light(&self) -> (r: bool)
        ensures
            r == self.under_light(),
    {
        match self {
            Direction::Unset => false,
            Direction::North | Direction::South | Direction::Up => true,
            Direction::West | Direction::East | Direction::Down => false,
        }
    }

    /// The heading of the face in degrees: 270 for north, 360 for west, 90
    /// for south, 180 for east, and 0 for anything else.
    pub open spec fn degree(self) -> u32 {
        match self {
            Direction::North => 270u32,
            Direction::West => 360u32,
            Direction::South => 90u32,
            Direction::East => 180u32,
            _ => 0u32,
        }
    }

    /// The heading of the face in degrees, by which the view of the player
    /// through a portal on this face is chosen.
    pub fn to_degree(&self) -> (r: u32)
        ensures
            r == self.degree(),
    {
        match self {
            Direction::North => 270,
            Direction::West => 360,
            Direction::South => 90,
            Direction::East => 180,
            Direction::Unset | Direction::Up | Direction::Down => 0,
        }
    }
}

impl Default for Direction {
    fn default() -> (r: Direction)
        ensures
            r == Direction::Unset,
    {
        Direction::Unset
    }
}

} // verus!
