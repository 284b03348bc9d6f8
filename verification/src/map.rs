//! The world: a grid of cells and a list of portal pairs.
use vstd::prelude::*;
use crate::cell::{Cell, Interaction};
use crate::direction::Direction;
use crate::fixed::{Fixed, floor_int_spec, fx_floor_int};
use crate::json::{items, items_of, member, member_of};
use crate::loader::{read_unsigned, unsigned_member};
use crate::portal::Portal;
use crate::vectors::Vector3f;

verus! {

/// The number of cells along each side of a floor.
pub const GRID: usize = 100;

/// The world. Its floors are squares of [`GRID`] by [`GRID`] cells, stacked
/// from floor 0 upward; every place outside them holds air.
pub struct WorldMap {
    /// The cells, floor after floor, each floor row after row.
    pub cells: Vec<Cell>,
    /// The pairs of portals. A pair with one side missing is a portal that
    /// can be seen and not passed.
    pub portals: Vec<(Option<Portal>, Option<Portal>)>,
    /// The number of floors.
    pub floors: usize,
    /// The air that stands for every place outside the grid.
    pub empty_ref: Cell,
}

/// The place of the cell `(x, y, z)` in the list of cells.
pub open spec fn slot(x: int, y: int, z: int) -> int {
    (z * GRID + x) * GRID + y
}

/// Whether `(x, y, z)` is a place of a grid with `floors` floors.
pub open spec fn inside(x: int, y: int, z: int, floors: int) -> bool {
    0 <= x < GRID && 0 <= y < GRID && 0 <= z < floors
}

/// What one pair of portals answers to a query for the cell `position` and
/// the face `dir`: the side that is there and the other side, if either side
/// is at that cell and, unless `dir` is unset, on that face. A query with an
/// unset `dir` passes over a pair with a side missing.
pub open spec fn pair_at(
    pair: (Option<Portal>, Option<Portal>),
    position: Vector3f,
    dir: Direction,
) -> Option<(Option<Portal>, Option<Portal>)> {
    if dir == Direction::Unset && (pair.0 is None || pair.1 is None) {
        None
    } else if pair.0 is Some && position == pair.0->0.pos && (dir == Direction::Unset || dir
        == pair.0->0.dir) {
        Some((pair.0, pair.1))
    } else if pair.1 is Some && position == pair.1->0.pos && (dir == Direction::Unset || dir
        == pair.1->0.dir) {
        Some((pair.1, pair.0))
    } else {
        None
    }
}

/// The answer of the first pair from `from` on that has one.
pub open spec fn first_pair_at(
    portals: Seq<(Option<Portal>, Option<Portal>)>,
    position: Vector3f,
    dir: Direction,
    from: int,
) -> Option<(Option<Portal>, Option<Portal>)>
    decreases portals.len() - from,
{
    if from < 0 || from >= portals.len() {
        None
    } else if pair_at(portals[from], position, dir) is Some {
        pair_at(portals[from], position, dir)
    } else {
        first_pair_at(portals, position, dir, from + 1)
    }
}

/// Where a map file puts a cell, and the cell, or nothing where the entry
/// `json` is malformed: it needs the unsigned integers `x` and `y`, both
/// below [`GRID`], in its member `pos`, and must describe a cell.
pub open spec fn entry_read(json: serde_json::Value) -> Option<(int, int, Cell)> {
    match member_of(json, "pos"@) {
        Some(pos) => match (unsigned_member(pos, "x"@), unsigned_member(pos, "y"@), Cell::read(json)) {
            (Some(x), Some(y), Some(cell)) => if x < GRID && y < GRID {
                Some((x as int, y as int, cell))
            } else {
                None
            },
            _ => None,
        },
        None => None,
    }
}

/// The cell at `(x, y)` of a floor on which the first `n` entries of `list`
/// have been put, one after another, or nothing where one of them is
/// malformed. A place that no entry names holds air, and of two entries for
/// one place the later one stays.
pub open spec fn floor_read(list: Seq<serde_json::Value>, n: int, x: int, y: int) -> Option<Cell>
    decreases n,
{
    if n <= 0 {
        Some(Cell::Empty)
    } else {
        match (floor_read(list, n - 1, x, y), entry_read(list[n - 1])) {
            (Some(before), Some((ex, ey, cell))) => if ex == x && ey == y {
                Some(cell)
            } else {
                Some(before)
            },
            _ => None,
        }
    }
}

/// The cell at `(x, y)` of the floor that `json` lists, or nothing where
/// `json` is no array or an entry is malformed.
pub open spec fn floor_cell(json: serde_json::Value, x: int, y: int) -> Option<Cell> {
    match items_of(json) {
        Some(list) => floor_read(list, list.len() as int, x, y),
        None => None,
    }
}

/// Whether the first `n` of the floors can be read.
pub open spec fn floors_readable(floors: Seq<serde_json::Value>, n: int) -> bool {
    forall|z: int| 0 <= z < n ==> (#[trigger] floor_cell(floors[z], 0, 0)) is Some
}

/// The pair of portals that `json` describes, or nothing where a side is
/// malformed. Its sides are the members `first` and `second`; a side that is
/// missing or no object is no side.
pub open spec fn pair_read(json: serde_json::Value) -> Option<(Option<Portal>, Option<Portal>)> {
    let first = match member_of(json, "first"@) {
        Some(side) => Portal::read(side),
        None => Some(None),
    };
    let second = match member_of(json, "second"@) {
        Some(side) => Portal::read(side),
        None => Some(None),
    };
    match (first, second) {
        (Some(a), Some(b)) => Some((a, b)),
        _ => None,
    }
}

/// The first `n` pairs of portals of `list`, or nothing where one of them
/// is malformed.
pub open spec fn pairs_read(list: Seq<serde_json::Value>, n: int) -> Option<
    Seq<(Option<Portal>, Option<Portal>)>,
>
    decreases n,
{
    if n <= 0 {
        Some(Seq::empty())
    } else {
        match (pairs_read(list, n - 1), pair_read(list[n - 1])) {
            (Some(before), Some(pair)) => Some(before.push(pair)),
            _ => None,
        }
    }
}

/// The pairs of portals of a map file: those of the array in its member
/// `portals`, and none where there is no such array.
pub open spec fn portals_read(json: serde_json::Value) -> Option<
    Seq<(Option<Portal>, Option<Portal>)>,
> {
    match member_of(json, "portals"@) {
        Some(v) => match items_of(v) {
            Some(list) => pairs_read(list, list.len() as int),
            None => Some(Seq::empty()),
        },
        None => Some(Seq::empty()),
    }
}

/// The floors of a map file: the array in its member `cells`.
pub open spec fn floors_of(json: serde_json::Value) -> Option<Seq<serde_json::Value>> {
    match member_of(json, "cells"@) {
        Some(v) => items_of(v),
        None => None,
    }
}

/// A floor reads the same way at every place: either all of it can be
/// read or none of it.
pub proof fn lemma_floor_reads_everywhere(list: Seq<serde_json::Value>, n: int, x: int, y: int)
    ensures
        floor_read(list, n, x, y) is Some == floor_read(list, n, 0, 0) is Some,
    decreases n,
{
    if n > 0 {
        lemma_floor_reads_everywhere(list, n - 1, x, y);
    }
}

impl WorldMap {
    /// Reads the floors of a map from the array `json`, or nothing where a
    /// floor is malformed or there are more floors than the memory holds.
    /// The map has no portals yet.
    fn parse_cells_from_json(json: &serde_json::Value) -> (r: Option<WorldMap>)
        ensures
            r is Some == (items_of(*json) matches Some(floors) && floors_readable(
                floors,
                floors.len() as int,
            ) && floors.len() * GRID * GRID <= usize::MAX),
            r matches Some(map) ==> {
                &&& map.wf()
                &&& map.portals@.len() == 0
                &&& map.floors == items_of(*json)->0.len()
                &&& forall|x: int, y: int, z: int|
                    inside(x, y, z, map.floors as int) ==> Some(#[trigger] map.at(x, y, z))
                        == floor_cell(items_of(*json)->0[z], x, y)
            },
    {
        let floors: &Vec<serde_json::Value> = match items(json) {
            Some(floors) => floors,
            None => {
                return None;
            },
        };
        let count: usize = floors.len();
        let fits: bool = match count.checked_mul(GRID) {
            Some(rows) => rows.checked_mul(GRID).is_some(),
            None => {
                proof {
                    assert(count * GRID * GRID >= count * GRID) by (nonlinear_arith)
                        requires
                            count * GRID >= 0,
                            GRID == 100,
                    ;
                }
                false
            },
        };
        if !fits {
            return None;
        }
        let mut map: WorldMap = WorldMap::with_floors(count);
        let mut z: usize = 0;
        while z < count
            invariant
                z <= count,
                count == floors@.len(),
                items_of(*json) == Some(floors@),
                map.wf(),
                map.portals@.len() == 0,
                map.floors == count,
                floors_readable(floors@, z as int),
                forall|x: int, y: int, k: int|
                    inside(x, y, k, count as int) && k < z ==> Some(#[trigger] map.at(x, y, k))
                        == floor_cell(floors@[k], x, y),
                forall|x: int, y: int, k: int| k >= z ==> #[trigger] map.at(x, y, k) == Cell::Empty,
            decreases count - z,
        {
            let list: &Vec<serde_json::Value> = match items(&floors[z]) {
                Some(list) => list,
                None => {
                    return None;
                },
            };
            let mut i: usize = 0;
            while i < list.len()
                invariant
                    i <= list@.len(),
                    z < count,
                    count == floors@.len(),
                    items_of(*json) == Some(floors@),
                    items_of(floors@[z as int]) == Some(list@),
                    map.wf(),
                    map.portals@.len() == 0,
                    map.floors == count,
                    floor_read(list@, i as int, 0, 0) is Some,
                    forall|x: int, y: int, k: int|
                        inside(x, y, k, count as int) && k < z ==> Some(#[trigger] map.at(x, y, k))
                            == floor_cell(floors@[k], x, y),
                    forall|x: int, y: int|
                        inside(x, y, z as int, count as int) ==> Some(
                            #[trigger] map.at(x, y, z as int),
                        ) == floor_read(list@, i as int, x, y),
                    forall|x: int, y: int, k: int| k > z ==> #[trigger] map.at(x, y, k) == Cell::Empty,
                decreases list@.len() - i,
            {
                let entry: &serde_json::Value = &list[i];
                let place: Option<(u64, u64)> = match member(entry, "pos") {
                    Some(pos) => match (read_unsigned(pos, "x"), read_unsigned(pos, "y")) {
                        (Some(x), Some(y)) => Some((x, y)),
                        _ => None,
                    },
                    None => None,
                };
                let cell: Option<Cell> = Cell::from_json(entry);
                proof {
                    assert forall|x: int, y: int|
                        (#[trigger] floor_read(list@, i as int, x, y)) is Some by {
                        lemma_floor_reads_everywhere(list@, i as int, x, y);
                    }
                }
                let put: Option<(usize, usize, Cell)> = match (place, cell) {
                    (Some((x, y)), Some(cell)) => {
                        if x >= GRID as u64 || y >= GRID as u64 {
                            None
                        } else {
                            Some((x as usize, y as usize, cell))
                        }
                    },
                    _ => None,
                };
                assert(match put {
                    Some((x, y, cell)) => entry_read(list@[i as int]) == Some((x as int, y as int, cell)),
                    None => entry_read(list@[i as int]) is None,
                });
                match put {
                    Some((x, y, cell)) => {
                        map.place(x, y, z, cell);
                    },
                    None => {
                        proof {
                            lemma_unread_stays_unread(list@, i + 1, list@.len() as int);
                            assert(floor_cell(floors@[z as int], 0, 0) is None);
                        }
                        return None;
                    },
                }
                i += 1;
            }
            assert(floor_cell(floors@[z as int], 0, 0) is Some);
            z += 1;
        }
        Some(map)
    }

    /// Reads the pairs of portals of a map from `json`: those of an array,
    /// none where `json` is no array, and nothing where a pair is malformed.
    fn parse_portals_from_json(json: &serde_json::Value) -> (r: Option<
        Vec<(Option<Portal>, Option<Portal>)>,
    >)
        ensures
            (match r {
                Some(portals) => Some(portals@),
                None => None,
            }) == (match items_of(*json) {
                Some(list) => pairs_read(list, list.len() as int),
                None => Some(Seq::empty()),
            }),
    {
        let mut portals: Vec<(Option<Portal>, Option<Portal>)> = Vec::new();
        if let Some(list) = items(json) {
            let mut i: usize = 0;
            while i < list.len()
                invariant
                    i <= list@.len(),
                    items_of(*json) == Some(list@),
                    Some(portals@) == pairs_read(list@, i as int),
                decreases list@.len() - i,
            {
                let entry: &serde_json::Value = &list[i];
                let first: Option<Option<Portal>> = match member(entry, "first") {
                    Some(side) => Portal::from_json(side),
                    None => Some(None),
                };
                let second: Option<Option<Portal>> = match member(entry, "second") {
                    Some(side) => Portal::from_json(side),
                    None => Some(None),
                };
                match (first, second) {
                    (Some(a), Some(b)) => {
                        portals.push((a, b));
                    },
                    _ => {
                        proof {
                            lemma_unpaired_stays_unpaired(list@, i + 1, list@.len() as int);
                        }
                        return None;
                    },
                }
                i += 1;
            }
        }
        Some(portals)
    }

    /// Reads a map from the JSON object of a map file, or nothing where the
    /// file is malformed or has more floors than the memory holds.
    ///
    /// The member `cells` lists the floors from the ground up, each floor
    /// the cells that are not air. The member `portals` lists the pairs of
    /// portals.
    pub fn new(json: &serde_json::Value) -> (r: Option<WorldMap>)
        ensures
            r is Some == (floors_of(*json) matches Some(floors) && floors_readable(
                floors,
                floors.len() as int,
            ) && portals_read(*json) is Some && floors.len() * GRID * GRID <= usize::MAX),
            r matches Some(map) ==> {
                &&& map.wf()
                &&& Some(map.portals@) == portals_read(*json)
                &&& map.floors == floors_of(*json)->0.len()
                &&& forall|x: int, y: int, z: int|
                    inside(x, y, z, map.floors as int) ==> Some(#[trigger] map.at(x, y, z))
                        == floor_cell(floors_of(*json)->0[z], x, y)
            },
    {
        let mut map: WorldMap = match member(json, "cells") {
            Some(cells) => match WorldMap::parse_cells_from_json(cells) {
                Some(map) => map,
                None => {
                    return None;
                },
            },
            None => {
                return None;
            },
        };
        let ghost floors = map;
        let portals: Vec<(Option<Portal>, Option<Portal>)> = match member(json, "portals") {
            Some(list) => match WorldMap::parse_portals_from_json(list) {
                Some(portals) => portals,
                None => {
                    return None;
                },
            },
            None => Vec::new(),
        };
        map.portals = portals;
        proof {
            assert forall|x: int, y: int, z: int| inside(x, y, z, map.floors as int) implies Some(
                #[trigger] map.at(x, y, z),
            ) == floor_cell(floors_of(*json)->0[z], x, y) by {
                assert(map.at(x, y, z) == floors.at(x, y, z));
            }
        }
        Some(map)
    }

    /// A map is well formed when it holds one cell for each place of its
    /// floors, each of them well formed, and its stand-in for the outside is
    /// air.
    pub open spec fn wf(self) -> bool {
        &&& self.cells@.len() == self.floors * GRID * GRID
        &&& forall|i: int| 0 <= i < self.cells@.len() ==> (#[trigger] self.cells@[i]).wf()
        &&& self.empty_ref == Cell::Empty
    }

    /// The cell at the place `(x, y, z)`: air outside the grid.
    pub open spec fn at(self, x: int, y: int, z: int) -> Cell {
        if inside(x, y, z, self.floors as int) {
            self.cells@[slot(x, y, z)]
        } else {
            Cell::Empty
        }
    }

    /// The cell that holds the point `p`.
    pub open spec fn at_point(self, p: Vector3f) -> Cell {
        self.at(floor_int_spec(p.x as int), floor_int_spec(p.y as int), floor_int_spec(p.z as int))
    }

    /// Whether this map is `before` with the cell that holds `p` set off, and
    /// nothing else changed. For a point outside the grid it is `before`.
    pub open spec fn triggered_from(self, before: WorldMap, p: Vector3f) -> bool {
        let x = floor_int_spec(p.x as int);
        let y = floor_int_spec(p.y as int);
        let z = floor_int_spec(p.z as int);
        &&& self.floors == before.floors
        &&& self.portals == before.portals
        &&& self.empty_ref == before.empty_ref
        &&& self.cells@ == (if inside(x, y, z, before.floors as int) {
            before.cells@.update(slot(x, y, z), before.cells@[slot(x, y, z)].triggered())
        } else {
            before.cells@
        })
    }

    /// Whether this map is `before` after `delta` seconds: every cell has
    /// moved on by that time, and nothing else has changed.
    pub open spec fn updated_from(self, before: WorldMap, delta: Fixed) -> bool {
        &&& self.floors == before.floors
        &&& self.portals == before.portals
        &&& self.empty_ref == before.empty_ref
        &&& self.cells@.len() == before.cells@.len()
        &&& forall|i: int|
            0 <= i < before.cells@.len() ==> #[trigger] self.cells@[i] == before.cells@[i].updated(
                delta as int,
            )
    }

    /// The number of floors.
    pub fn depth(&self) -> (r: usize)
        ensures
            r == self.floors,
    {
        self.floors
    }

    /// The place in the list of the cell that holds `position`, if it is
    /// inside the grid.
    fn locate(&self, position: &Vector3f) -> (r: Option<usize>)
        requires
            self.wf(),
        ensures
            match r {
                Some(i) => {
                    &&& inside(
                        floor_int_spec(position.x as int),
                        floor_int_spec(position.y as int),
                        floor_int_spec(position.z as int),
                        self.floors as int,
                    )
                    &&& i == slot(
                        floor_int_spec(position.x as int),
                        floor_int_spec(position.y as int),
                        floor_int_spec(position.z as int),
                    )
                    &&& i < self.cells@.len()
                },
                None => !inside(
                    floor_int_spec(position.x as int),
                    floor_int_spec(position.y as int),
                    floor_int_spec(position.z as int),
                    self.floors as int,
                ),
            },
    {
        let x: i64 = fx_floor_int(position.x);
        let y: i64 = fx_floor_int(position.y);
        let z: i64 = fx_floor_int(position.z);
        if x < 0 || x >= GRID as i64 || y < 0 || y >= GRID as i64 || z < 0 {
            return None;
        }
        if z as i128 >= self.floors as i128 {
            return None;
        }
        let floor: usize = z as usize;
        proof {
            lemma_slot_in_range(x as int, y as int, z as int, self.floors as int);
        }
        let total: usize = self.cells.len();
        let row: usize = floor * GRID + x as usize;
        Some(row * GRID + y as usize)
    }

    /// The cell that holds `position`: air for a place outside the grid.
    pub fn get(&self, position: &Vector3f) -> (r: &Cell)
        requires
            self.wf(),
        ensures
            *r == self.at_point(*position),
            r.wf(),
    {
        match self.locate(position) {
            Some(i) => &self.cells[i],
            None => &self.empty_ref,
        }
    }

    /// The cell that holds `position`, to be changed, or nothing for a place
    /// outside the grid. What the caller leaves in the cell is what the map
    /// holds there afterwards; nothing else changes.
    pub fn get_mut(&mut self, position: &Vector3f) -> (r: Option<&mut Cell>)
        requires
            old(self).wf(),
        ensures
            match r {
                Some(cell) => {
                    &&& inside(
                        floor_int_spec(position.x as int),
                        floor_int_spec(position.y as int),
                        floor_int_spec(position.z as int),
                        old(self).floors as int,
                    )
                    &&& *cell == old(self).at_point(*position)
                    &&& final(self).cells@ == old(self).cells@.update(
                        slot(
                            floor_int_spec(position.x as int),
                            floor_int_spec(position.y as int),
                            floor_int_spec(position.z as int),
                        ),
                        *final(cell),
                    )
                    &&& final(self).portals == old(self).portals
                    &&& final(self).floors == old(self).floors
                    &&& final(self).empty_ref == old(self).empty_ref
                },
                None => {
                    &&& !inside(
                        floor_int_spec(position.x as int),
                        floor_int_spec(position.y as int),
                        floor_int_spec(position.z as int),
                        old(self).floors as int,
                    )
                    &&& *final(self) == *old(self)
                },
            },
    {
        match self.locate(position) {
            Some(i) => Some(&mut self.cells[i]),
            None => None,
        }
    }

    /// Sets off the cell that holds `position`. A place outside the grid
    /// has nothing to set off.
    pub fn trigger_at(&mut self, position: &Vector3f)
        requires
            old(self).wf(),
        ensures
            final(self).wf(),
            final(self).triggered_from(*old(self), *position),
    {
        match self.get_mut(position) {
            Some(cell) => {
                cell.trigger();
            },
            None => {},
        }
    }

    /// Lets `delta` seconds pass in every cell.
    pub fn update(&mut self, delta: Fixed)
        requires
            old(self).wf(),
        ensures
            final(self).wf(),
            final(self).floors == old(self).floors,
            final(self).portals == old(self).portals,
            final(self).updated_from(*old(self), delta),
            forall|x: int, y: int, z: int| #[trigger]
                final(self).at(x, y, z) == old(self).at(x, y, z).updated(delta as int),
    {
        let n: usize = self.cells.len();
        let mut i: usize = 0;
        while i < n
            invariant
                n == self.cells@.len(),
                n == old(self).cells@.len(),
                i <= n,
                self.floors == old(self).floors,
                self.portals == old(self).portals,
                self.empty_ref == old(self).empty_ref,
                forall|k: int| 0 <= k < n ==> (#[trigger] self.cells@[k]).wf(),
                forall|k: int| 0 <= k < i ==> #[trigger] self.cells@[k] == old(self).cells@[k].updated(
                    delta as int,
                ),
                forall|k: int| i <= k < n ==> #[trigger] self.cells@[k] == old(self).cells@[k],
            decreases n - i,
        {
            let mut cell: Cell = self.cells[i];
            cell.update(delta);
            self.cells.set(i, cell);
            i += 1;
        }
        proof {
            assert forall|x: int, y: int, z: int| #[trigger]
                self.at(x, y, z) == old(self).at(x, y, z).updated(delta as int) by {
                if inside(x, y, z, self.floors as int) {
                    lemma_slot_in_range(x, y, z, self.floors as int);
                }
            }
        }
    }

    /// The first pair of portals with a side at the cell `position` and,
    /// unless `dir` is unset, on the face `dir`: that side first, then the
    /// other side of the pair. With `dir` unset only pairs with both sides
    /// count.
    pub fn portals_at(&self, position: Vector3f, dir: Direction) -> (r: Option<
        (Option<&Portal>, Option<&Portal>),
    >)
        ensures
            pair_values(r) == first_pair_at(self.portals@, position, dir, 0),
    {
        let mut i: usize = 0;
        while i < self.portals.len()
            invariant
                i <= self.portals@.len(),
                first_pair_at(self.portals@, position, dir, 0) == first_pair_at(
                    self.portals@,
                    position,
                    dir,
                    i as int,
                ),
            decreases self.portals@.len() - i,
        {
            let pair: &(Option<Portal>, Option<Portal>) = &self.portals[i];
            let unset: bool = dir == Direction::Unset;
            if !(unset && (pair.0.is_none() || pair.1.is_none())) {
                if let Some(portal) = pair.0.as_ref() {
                    if position == portal.pos && (unset || dir == portal.dir) {
                        return Some((Some(portal), pair.1.as_ref()));
                    }
                }
                if let Some(portal) = pair.1.as_ref() {
                    if position == portal.pos && (unset || dir == portal.dir) {
                        return Some((Some(portal), pair.0.as_ref()));
                    }
                }
            }
            i += 1;
        }
        None
    }

    /// A map of `floors` floors of air, without portals.
    pub fn with_floors(floors: usize) -> (r: WorldMap)
        requires
            floors * GRID * GRID <= usize::MAX,
        ensures
            r.wf(),
            r.floors == floors,
            r.portals@.len() == 0,
            forall|x: int, y: int, z: int| #[trigger] r.at(x, y, z) == Cell::Empty,
    {
        let mut cells: Vec<Cell> = Vec::new();
        assert(floors * GRID <= floors * GRID * GRID) by (nonlinear_arith)
            requires
                GRID == 100,
                floors >= 0,
        ;
        let total: usize = floors * GRID * GRID;
        let mut i: usize = 0;
        while i < total
            invariant
                i <= total,
                cells@.len() == i,
                forall|k: int| 0 <= k < i ==> #[trigger] cells@[k] == Cell::Empty,
            decreases total - i,
        {
            cells.push(Cell::Empty);
            i += 1;
        }
        WorldMap { cells, portals: Vec::new(), floors, empty_ref: Cell::Empty }
    }

    /// Puts `cell` at the place `(x, y)` of the floor `z`. A place outside
    /// the grid stays air, and the answer is `false`.
    pub fn place(&mut self, x: usize, y: usize, z: usize, cell: Cell) -> (done: bool)
        requires
            old(self).wf(),
            cell.wf(),
        ensures
            final(self).wf(),
            final(self).floors == old(self).floors,
            final(self).portals == old(self).portals,
            done == inside(x as int, y as int, z as int, old(self).floors as int),
            forall|i: int, j: int, k: int| #[trigger]
                final(self).at(i, j, k) == (if done && i == x && j == y && k == z {
                    cell
                } else {
                    old(self).at(i, j, k)
                }),
    {
        if x >= GRID || y >= GRID || z >= self.floors {
            return false;
        }
        proof {
            lemma_slot_in_range(x as int, y as int, z as int, self.floors as int);
        }
        let total: usize = self.cells.len();
        let row: usize = z * GRID + x;
        self.cells.set(row * GRID + y, cell);
        proof {
            assert forall|i: int, j: int, k: int| #[trigger]
                self.at(i, j, k) == (if i == x && j == y && k == z {
                    cell
                } else {
                    old(self).at(i, j, k)
                }) by {
                if inside(i, j, k, self.floors as int) {
                    lemma_slot_in_range(i, j, k, self.floors as int);
                    if slot(i, j, k) == slot(x as int, y as int, z as int) {
                        lemma_slot_unique(i, j, k, x as int, y as int, z as int);
                    }
                }
            }
        }
        true
    }

    /// Adds a pair of portals behind those that the map has.
    pub fn link(&mut self, first: Option<Portal>, second: Option<Portal>)
        ensures
            final(self).portals@ == old(self).portals@.push((first, second)),
            final(self).cells == old(self).cells,
            final(self).floors == old(self).floors,
            final(self).empty_ref == old(self).empty_ref,
    {
        self.portals.push((first, second));
    }
}

/// A query without a face is answered only by pairs with both sides.
pub proof fn lemma_whole_pairs(
    portals: Seq<(Option<Portal>, Option<Portal>)>,
    position: Vector3f,
    from: int,
)
    ensures
        first_pair_at(portals, position, Direction::Unset, from) matches Some(found)
            ==> found.0 is Some && found.1 is Some,
    decreases portals.len() - from,
{
    if 0 <= from < portals.len() && pair_at(portals[from], position, Direction::Unset) is None {
        lemma_whole_pairs(portals, position, from + 1);
    }
}

/// A floor with a malformed entry cannot be read, however many entries
/// follow.
pub proof fn lemma_unread_stays_unread(list: Seq<serde_json::Value>, n: int, m: int)
    requires
        floor_read(list, n, 0, 0) is None,
        n <= m,
    ensures
        floor_read(list, m, 0, 0) is None,
    decreases m - n,
{
    if n < m {
        lemma_unread_stays_unread(list, n, m - 1);
    }
}

/// A list of pairs with a malformed pair cannot be read, however many pairs
/// follow.
pub proof fn lemma_unpaired_stays_unpaired(list: Seq<serde_json::Value>, n: int, m: int)
    requires
        pairs_read(list, n) is None,
        n <= m,
    ensures
        pairs_read(list, m) is None,
    decreases m - n,
{
    if n < m {
        lemma_unpaired_stays_unpaired(list, n, m - 1);
    }
}

/// The portals that an answer refers to.
pub open spec fn pair_values(r: Option<(Option<&Portal>, Option<&Portal>)>) -> Option<
    (Option<Portal>, Option<Portal>),
> {
    match r {
        None => None,
        Some((first, second)) => Some(
            (
                match first {
                    Some(p) => Some(*p),
                    None => None,
                },
                match second {
                    Some(p) => Some(*p),
                    None => None,
                },
            ),
        ),
    }
}

/// Two places inside the grid that share a slot are the same place.
pub proof fn lemma_slot_unique(x: int, y: int, z: int, u: int, v: int, w: int)
    requires
        0 <= x < GRID,
        0 <= y < GRID,
        0 <= u < GRID,
        0 <= v < GRID,
        slot(x, y, z) == slot(u, v, w),
    ensures
        x == u,
        y == v,
        z == w,
{
    assert(x == u && y == v && z == w) by (nonlinear_arith)
        requires
            0 <= x < 100,
            0 <= y < 100,
            0 <= u < 100,
            0 <= v < 100,
            (z * 100 + x) * 100 + y == (w * 100 + u) * 100 + v,
    ;
}

/// The place of a cell inside the grid lies inside the list.
pub proof fn lemma_slot_in_range(x: int, y: int, z: int, floors: int)
    requires
        inside(x, y, z, floors),
    ensures
        0 <= slot(x, y, z) < floors * GRID * GRID,
        0 <= z * GRID + x < floors * GRID,
        0 <= z * GRID <= z * GRID + x,
        floors * GRID <= floors * GRID * GRID,
{
    assert(0 <= z * GRID && floors * GRID <= floors * GRID * GRID) by (nonlinear_arith)
        requires
            0 <= z < floors,
            GRID == 100,
    ;
    assert(0 <= z * GRID + x < floors * GRID) by (nonlinear_arith)
        requires
            0 <= x < GRID,
            0 <= z < floors,
    ;
    let row = z * GRID + x;
    assert(0 <= row * GRID + y < floors * GRID * GRID) by (nonlinear_arith)
        requires
            0 <= y < GRID,
            0 <= row < floors * GRID,
    ;
}

} // verus!
