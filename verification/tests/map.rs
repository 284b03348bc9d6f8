use raycaster::cell::{Cell, Interaction};
use raycaster::direction::Direction;
use raycaster::fixed::{HALF, ONE};
use raycaster::map::WorldMap;
use raycaster::portal::Portal;
use raycaster::vectors::Vector3f;

fn at(x: i64, y: i64, z: i64) -> Vector3f {
    Vector3f::new(x, y, z)
}

#[test]
fn a_new_map_is_air() {
    let map = WorldMap::with_floors(2);
    assert_eq!(map.depth(), 2);
    assert_eq!(*map.get(&at(0, 0, 0)), Cell::Empty);
    assert_eq!(*map.get(&at(99 * ONE, 99 * ONE, ONE)), Cell::Empty);
    assert_eq!(map.cells.len(), 20_000);
}

#[test]
fn a_cell_is_found_by_any_point_in_it() {
    let mut map = WorldMap::with_floors(1);
    let wall = Cell::Wall { value: 3, height: ONE };
    assert!(map.place(10, 20, 0, wall));
    assert_eq!(*map.get(&at(10 * ONE, 20 * ONE, 0)), wall);
    assert_eq!(*map.get(&at(10 * ONE + 999_999, 20 * ONE + HALF, 999_999)), wall);
    assert_eq!(*map.get(&at(11 * ONE, 20 * ONE, 0)), Cell::Empty);
    assert_eq!(*map.get(&at(10 * ONE, 21 * ONE, 0)), Cell::Empty);
    assert_eq!(*map.get(&at(20 * ONE, 10 * ONE, 0)), Cell::Empty);
    assert_eq!(*map.get(&at(10 * ONE - 1, 20 * ONE, 0)), Cell::Empty);
}

#[test]
fn outside_the_grid_is_air() {
    let mut map = WorldMap::with_floors(1);
    let wall = Cell::Wall { value: 3, height: ONE };
    assert!(map.place(0, 0, 0, wall));
    assert!(map.place(99, 99, 0, wall));
    assert!(!map.place(100, 0, 0, wall));
    assert!(!map.place(0, 100, 0, wall));
    assert!(!map.place(0, 0, 1, wall));
    assert_eq!(*map.get(&at(-1, 0, 0)), Cell::Empty);
    assert_eq!(*map.get(&at(0, -1, 0)), Cell::Empty);
    assert_eq!(*map.get(&at(0, 0, -1)), Cell::Empty);
    assert_eq!(*map.get(&at(0, 0, ONE)), Cell::Empty);
    assert_eq!(*map.get(&at(100 * ONE, 99 * ONE, 0)), Cell::Empty);
    assert_eq!(*map.get(&at(99 * ONE, 100 * ONE, 0)), Cell::Empty);
    assert_eq!(*map.get(&at(99 * ONE + HALF, 99 * ONE + HALF, HALF)), wall);
    assert!(map.get_mut(&at(-1, 0, 0)).is_none());
    assert!(map.get_mut(&at(0, 0, ONE)).is_none());
    assert!(map.get_mut(&at(0, 0, 0)).is_some());
}

#[test]
fn a_map_without_floors_is_air() {
    let mut map = WorldMap::with_floors(0);
    assert_eq!(map.depth(), 0);
    assert_eq!(*map.get(&at(0, 0, 0)), Cell::Empty);
    assert!(map.get_mut(&at(0, 0, 0)).is_none());
    map.update(ONE);
    map.trigger_at(&at(0, 0, 0));
    assert_eq!(*map.get(&at(0, 0, 0)), Cell::Empty);
}

#[test]
fn a_cell_can_be_changed_in_place() {
    let mut map = WorldMap::with_floors(1);
    map.place(5, 5, 0, Cell::thin(13, Direction::North, false));
    match map.get_mut(&at(5 * ONE + HALF, 5 * ONE + HALF, 0)) {
        Some(cell) => cell.trigger(),
        None => panic!("the cell is inside the grid"),
    }
    let mut expected = Cell::thin(13, Direction::North, false);
    expected.trigger();
    assert_eq!(*map.get(&at(5 * ONE, 5 * ONE, 0)), expected);
}

#[test]
fn an_update_moves_every_cell() {
    let mut map = WorldMap::with_floors(2);
    map.place(5, 5, 0, Cell::thin(13, Direction::North, false));
    map.place(6, 7, 1, Cell::thin(4, Direction::West, true));
    map.place(1, 1, 1, Cell::Wall { value: 1, height: HALF });
    map.trigger_at(&at(5 * ONE, 5 * ONE, 0));
    map.trigger_at(&at(6 * ONE, 7 * ONE, ONE));
    map.trigger_at(&at(1 * ONE, 1 * ONE, ONE));
    map.update(ONE);
    map.update(ONE);

    let mut door = Cell::thin(13, Direction::North, false);
    door.trigger();
    door.update(ONE);
    door.update(ONE);
    assert_eq!(*map.get(&at(5 * ONE, 5 * ONE, 0)), door);
    assert_eq!(*map.get(&at(6 * ONE, 7 * ONE, ONE)), Cell::Empty);
    assert_eq!(*map.get(&at(1 * ONE, 1 * ONE, ONE)), Cell::Wall { value: 1, height: HALF });
}

#[test]
fn a_pushed_panel_is_gone_after_two_seconds() {
    let mut map = WorldMap::with_floors(1);
    map.place(5, 5, 0, Cell::thin(2, Direction::North, true));
    map.trigger_at(&at(5 * ONE, 5 * ONE, 0));
    for _ in 0..20 {
        assert!(*map.get(&at(5 * ONE, 5 * ONE, 0)) != Cell::Empty);
        map.update(100_000);
    }
    assert_eq!(*map.get(&at(5 * ONE, 5 * ONE, 0)), Cell::Empty);
}

fn portal(x: i64, y: i64, dir: Direction) -> Portal {
    Portal::new(at(x * ONE, y * ONE, 0), dir, 0)
}

#[test]
fn a_portal_is_found_by_cell_and_face() {
    let mut map = WorldMap::with_floors(1);
    let a = portal(5, 5, Direction::North);
    let b = portal(20, 5, Direction::South);
    map.link(Some(a), Some(b));
    assert_eq!(
        map.portals_at(at(5 * ONE, 5 * ONE, 0), Direction::North),
        Some((Some(&a), Some(&b)))
    );
    assert_eq!(
        map.portals_at(at(20 * ONE, 5 * ONE, 0), Direction::South),
        Some((Some(&b), Some(&a)))
    );
    assert_eq!(map.portals_at(at(5 * ONE, 5 * ONE, 0), Direction::South), None);
    assert_eq!(map.portals_at(at(5 * ONE, 5 * ONE, 0), Direction::Up), None);
    assert_eq!(map.portals_at(at(5 * ONE + 1, 5 * ONE, 0), Direction::North), None);
    assert_eq!(map.portals_at(at(5 * ONE, 5 * ONE, ONE), Direction::North), None);
}

#[test]
fn a_query_without_a_face_finds_whole_pairs_only() {
    let mut map = WorldMap::with_floors(1);
    let lone = portal(5, 5, Direction::North);
    let a = portal(5, 5, Direction::West);
    let b = portal(8, 8, Direction::East);
    map.link(Some(lone), None);
    map.link(None, Some(lone));
    map.link(Some(a), Some(b));
    assert_eq!(
        map.portals_at(at(5 * ONE, 5 * ONE, 0), Direction::Unset),
        Some((Some(&a), Some(&b)))
    );
    assert_eq!(
        map.portals_at(at(8 * ONE, 8 * ONE, 0), Direction::Unset),
        Some((Some(&b), Some(&a)))
    );
    assert_eq!(
        map.portals_at(at(5 * ONE, 5 * ONE, 0), Direction::North),
        Some((Some(&lone), None))
    );
    assert_eq!(map.portals_at(at(9 * ONE, 9 * ONE, 0), Direction::Unset), None);
}

#[test]
fn the_first_pair_wins() {
    let mut map = WorldMap::with_floors(1);
    let a = portal(5, 5, Direction::North);
    let b = portal(20, 5, Direction::South);
    let c = portal(30, 5, Direction::East);
    map.link(Some(a), Some(b));
    map.link(Some(c), Some(a));
    assert_eq!(
        map.portals_at(at(5 * ONE, 5 * ONE, 0), Direction::North),
        Some((Some(&a), Some(&b)))
    );
    assert_eq!(
        map.portals_at(at(30 * ONE, 5 * ONE, 0), Direction::Unset),
        Some((Some(&c), Some(&a)))
    );
}
