use raycaster::cell::door::{Door, DoorState};
use raycaster::cell::thinwall::ThinWall;
use raycaster::cell::{Cell, Interaction, Thin, ThinObject, DOOR_VALUE};
use raycaster::direction::Direction;
use raycaster::fixed::{HALF, ONE};

#[test]
fn a_new_door_is_closed() {
    let door = Door::new(DOOR_VALUE, Direction::North);
    assert_eq!(door.state(), DoorState::Closed);
    assert_eq!(door.slide(), ONE);
    assert_eq!(door.depth(), HALF);
    assert!(!door.pushable());
    assert_eq!(door.value(), 13);
    assert_eq!(door.dir(), Direction::North);
}

#[test]
fn a_door_not_triggered_stays_closed() {
    let mut door = Door::new(14, Direction::West);
    for _ in 0..100 {
        door.update(100_000);
    }
    assert_eq!(door, Door::new(14, Direction::West));
}

#[test]
fn a_door_opens_waits_and_closes() {
    let mut door = Door::new(13, Direction::North);
    door.trigger();
    assert_eq!(door.state(), DoorState::Opening);
    assert_eq!(door.slide(), ONE);
    // Every update lasts a tenth of a second. The slide is set from the time
    // before the update: the n-th shows the door as it is after n - 1 tenths.
    door.update(100_000);
    assert_eq!(door.slide(), ONE);
    door.update(100_000);
    assert_eq!(door.slide(), 933_334);
    for _ in 0..6 {
        door.update(100_000);
    }
    // Eight updates: seven tenths of a second show.
    assert_eq!(door.slide(), ONE - 466_666);
    assert_eq!(door.state(), DoorState::Opening);
    for _ in 0..8 {
        door.update(100_000);
    }
    // Sixteen updates: the full second and a half shows, the door is down to 0.
    assert_eq!(door.slide(), 0);
    assert_eq!(door.state(), DoorState::Opening);
    door.update(100_000);
    assert_eq!(door.state(), DoorState::Opened);
    assert_eq!(door.slide(), 0);
    for _ in 0..29 {
        door.update(100_000);
        assert_eq!(door.state(), DoorState::Opened);
        assert_eq!(door.slide(), 0);
    }
    door.update(100_000);
    assert_eq!(door.state(), DoorState::Closing);
    door.update(100_000);
    assert_eq!(door.slide(), 0);
    door.update(100_000);
    assert_eq!(door.slide(), 66_666);
    for _ in 0..14 {
        door.update(100_000);
    }
    assert_eq!(door.slide(), ONE);
    assert_eq!(door.state(), DoorState::Closing);
    door.update(100_000);
    assert_eq!(door.state(), DoorState::Closed);
    assert_eq!(door.slide(), ONE);
    for _ in 0..50 {
        door.update(100_000);
        assert_eq!(door.slide(), ONE);
        assert_eq!(door.state(), DoorState::Closed);
    }
}

#[test]
fn a_trigger_does_not_disturb_a_moving_door() {
    let mut door = Door::new(13, Direction::North);
    door.trigger();
    door.update(500_000);
    door.update(500_000);
    let before = door;
    door.trigger();
    assert_eq!(door, before);
}

#[test]
fn thin_walls_start_by_their_kind() {
    let pushable = ThinWall::new(3, Direction::East, true);
    assert_eq!(pushable.depth(), ONE);
    assert_eq!(pushable.slide(), ONE);
    assert!(pushable.pushable());
    let fixed = ThinWall::new(3, Direction::East, false);
    assert_eq!(fixed.depth(), HALF);
    assert_eq!(fixed.slide(), ONE);
    assert!(!fixed.pushable());
    assert_eq!(fixed.value(), 3);
    assert_eq!(fixed.dir(), Direction::East);
}

#[test]
fn a_wall_that_is_not_pushable_never_moves() {
    let mut wall = ThinWall::new(3, Direction::East, false);
    wall.trigger();
    wall.update(ONE);
    wall.update(ONE);
    wall.update(ONE);
    assert_eq!(wall, ThinWall::new(3, Direction::East, false));
}

#[test]
fn a_pushed_panel_goes_in_over_two_seconds() {
    let mut wall = ThinWall::new(3, Direction::East, true);
    wall.update(ONE);
    assert_eq!(wall.depth(), ONE);
    wall.trigger();
    wall.update(500_000);
    assert_eq!(wall.depth(), 750_000);
    wall.update(500_000);
    assert_eq!(wall.depth(), 500_000);
    wall.trigger();
    wall.update(500_000);
    assert_eq!(wall.depth(), 250_000);
    wall.update(499_999);
    assert_eq!(wall.depth(), 1);
    wall.update(1);
    assert_eq!(wall.depth(), 0);
}

#[test]
fn a_moving_panel_never_comes_back_out() {
    let mut wall = ThinWall::new(3, Direction::East, true);
    wall.trigger();
    let mut last = wall.depth();
    for dt in [0, 1, 333_333, 0, 500_000, 7, 600_000, 1_000_000] {
        wall.update(dt);
        assert!(wall.depth() <= last);
        last = wall.depth();
    }
    assert_eq!(last, 0);
}

#[test]
fn the_timer_of_a_panel_does_not_run_below_zero() {
    let mut wall = ThinWall::new(3, Direction::East, true);
    wall.trigger();
    wall.update(500_000);
    assert_eq!((wall.delta, wall.depth), (500_000, 750_000));
    wall.update(-2_000_000);
    assert_eq!((wall.delta, wall.depth), (0, ONE));
    assert!(wall.moving);
    wall.update(1_000_000);
    assert_eq!((wall.delta, wall.depth), (1_000_000, HALF));
}

#[test]
fn a_trigger_lets_a_moving_panel_go_on_from_where_it_is() {
    let mut wall = ThinWall::new(3, Direction::East, true);
    wall.trigger();
    wall.update(700_001);
    let before = wall;
    assert_eq!(before.depth, 650_000);
    wall.trigger();
    // The timer is set to the time that belongs to the depth.
    assert_eq!((wall.delta, wall.depth, wall.moving), (700_000, 650_000, true));
}

#[test]
fn a_panel_all_the_way_in_leaves_air() {
    let mut cell = Cell::thin(3, Direction::East, true);
    cell.trigger();
    for _ in 0..119 {
        cell.update(16_667);
        assert!(cell != Cell::Empty);
    }
    cell.update(16_667);
    assert_eq!(cell, Cell::Empty);
    cell.update(16_667);
    assert_eq!(cell, Cell::Empty);
}

#[test]
fn thin_cells_are_doors_from_the_door_value_on() {
    assert_eq!(
        Cell::thin(13, Direction::North, true),
        Cell::Thin(ThinObject::Door(Door::new(13, Direction::North)))
    );
    assert_eq!(
        Cell::thin(12, Direction::North, true),
        Cell::Thin(ThinObject::Panel(ThinWall::new(12, Direction::North, true)))
    );
}

#[test]
fn cells_know_their_value_and_height() {
    assert_eq!(Cell::Empty.value(), 0);
    assert_eq!(Cell::Empty.height(), -ONE);
    let wall = Cell::Wall { value: 7, height: 300_000 };
    assert_eq!(wall.value(), 7);
    assert_eq!(wall.height(), 300_000);
    let thin = Cell::thin(20, Direction::West, false);
    assert_eq!(thin.value(), 20);
    assert_eq!(thin.height(), ONE);
    assert_eq!(Cell::default(), Cell::Empty);
}

#[test]
fn walls_and_air_ignore_triggers_and_time() {
    let mut wall = Cell::Wall { value: 7, height: 300_000 };
    wall.trigger();
    wall.update(ONE);
    assert_eq!(wall, Cell::Wall { value: 7, height: 300_000 });
    let mut air = Cell::Empty;
    air.trigger();
    air.update(ONE);
    assert_eq!(air, Cell::Empty);
}
