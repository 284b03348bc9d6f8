use raycaster::cell::door::DoorState;
use raycaster::cell::{Cell, ThinObject};
use raycaster::direction::Direction;
use raycaster::fixed::{fx_add, fx_mul, HALF, ONE, QUARTER_TURN};
use raycaster::map::WorldMap;
use raycaster::player::{Action, Player, GRAVITY, JUMP_SPEED, TURN_SPEED, WALK_SPEED};
use raycaster::portal::Portal;
use raycaster::vectors::{Vector2, Vector3f};

const FRAME: i64 = 16_667;

/// A player at `(x, y, z)` whose camera has been turned by `turns` quarter
/// turns from looking along the first axis.
fn player_at(x: i64, y: i64, z: i64, turns: i64) -> Player {
    let mut player = Player::new(Vector3f::new(x, y, z));
    player.dir = Vector2::new(ONE, 0);
    player.plane = Vector2::new(0, 660_000);
    player.dir.rotate(turns * QUARTER_TURN);
    player.plane.rotate(turns * QUARTER_TURN);
    player
}

fn door_state(map: &WorldMap, x: i64, y: i64) -> (DoorState, i64) {
    match map.get(&Vector3f::new(x * ONE, y * ONE, 0)) {
        Cell::Thin(ThinObject::Door(door)) => (door.state, door.slide),
        other => panic!("no door but {:?}", other),
    }
}

#[test]
fn a_new_player_looks_along_the_second_axis() {
    let player = Player::new(Vector3f::new(ONE, 2 * ONE, 0));
    assert_eq!(player.pos, Vector3f::new(ONE, 2 * ONE, 0));
    assert_eq!(player.dir, Vector2::new(0, ONE));
    assert_eq!(player.plane, Vector2::new(-660_000, 0));
    assert_eq!(player.frame, 0);
    assert_eq!(player.gravity, GRAVITY);
    assert_eq!(player.gravity, -3_800_000);
    assert_eq!(player.velocity, Vector2::new(0, 0));
    assert_eq!(player.rotation, Vector2::new(0, 0));
    assert_eq!(player.action, Action::Idle);
}

#[test]
fn keys_set_the_speeds() {
    let mut player = Player::new(Vector3f::zero());
    for key in [90, 87] {
        player.handle_inputs(key, true);
        assert_eq!(player.velocity.x, WALK_SPEED);
        assert_eq!(player.velocity.x, 4 * ONE);
        player.handle_inputs(key, false);
        assert_eq!(player.velocity.x, 0);
    }
    player.handle_inputs(83, true);
    assert_eq!(player.velocity.x, -4 * ONE);
    player.handle_inputs(83, false);
    assert_eq!(player.velocity.x, 0);
    for key in [81, 65] {
        player.handle_inputs(key, true);
        assert_eq!(player.rotation.x, -TURN_SPEED);
        assert_eq!(player.rotation.x, -3_500_000);
        player.handle_inputs(key, false);
        assert_eq!(player.rotation.x, 0);
    }
    player.handle_inputs(68, true);
    assert_eq!(player.rotation.x, 3_500_000);
    player.handle_inputs(68, false);
    assert_eq!(player.rotation.x, 0);
    assert_eq!(player, Player::new(Vector3f::zero()));
}

#[test]
fn a_jump_needs_a_player_at_rest() {
    let mut player = Player::new(Vector3f::zero());
    player.handle_inputs(32, false);
    assert_eq!(player.velocity.y, 0);
    player.handle_inputs(32, true);
    assert_eq!(player.velocity.y, JUMP_SPEED);
    assert_eq!(player.velocity.y, 1_650_000);
    player.velocity.y = 300_000;
    player.handle_inputs(32, true);
    assert_eq!(player.velocity.y, 300_000);
    player.handle_inputs(32, false);
    assert_eq!(player.velocity.y, 300_000);
}

#[test]
fn the_interaction_key_asks_once() {
    let mut player = Player::new(Vector3f::zero());
    player.handle_inputs(70, false);
    assert_eq!(player.action, Action::Idle);
    player.handle_inputs(70, true);
    assert_eq!(player.action, Action::Interact);
    let mut map = WorldMap::with_floors(1);
    player.update(&mut map, FRAME);
    assert_eq!(player.action, Action::Idle);
}

#[test]
fn unknown_keys_change_nothing() {
    let mut player = Player::new(Vector3f::zero());
    for key in [0, 1, 31, 33, 64, 66, 69, 71, 82, 84, 86, 88, 89, 91, 1000, u32::MAX] {
        player.handle_inputs(key, true);
        player.handle_inputs(key, false);
    }
    assert_eq!(player, Player::new(Vector3f::zero()));
}

#[test]
fn a_player_at_rest_stays() {
    let mut map = WorldMap::with_floors(1);
    let mut player = Player::new(Vector3f::new(5_500_000, 5_500_000, 0));
    for _ in 0..10 {
        player.update(&mut map, FRAME);
    }
    assert_eq!(player, Player::new(Vector3f::new(5_500_000, 5_500_000, 0)));
}

#[test]
fn a_step_is_speed_times_time_along_the_heading() {
    let mut map = WorldMap::with_floors(1);
    let mut player = player_at(5_500_000, 5_500_000, 0, 0);
    player.handle_inputs(90, true);
    player.update(&mut map, 100_000);
    assert_eq!(player.pos, Vector3f::new(5_900_000, 5_500_000, 0));
    player.handle_inputs(90, false);
    player.handle_inputs(83, true);
    player.update(&mut map, 250_000);
    assert_eq!(player.pos, Vector3f::new(4_900_000, 5_500_000, 0));
    let mut up = player_at(5_500_000, 5_500_000, 0, 1);
    up.handle_inputs(90, true);
    up.update(&mut map, 100_000);
    assert_eq!(up.pos, Vector3f::new(5_500_000, 5_900_000, 0));
}

#[test]
fn the_walk_runs_through_four_frames() {
    let mut map = WorldMap::with_floors(1);
    let mut player = player_at(5_500_000, 5_500_000, 0, 0);
    player.handle_inputs(90, true);
    let mut frames = Vec::new();
    for _ in 0..10 {
        player.update(&mut map, 100_000);
        frames.push(player.frame);
    }
    // A frame lasts more than 0.16 s: it changes with every second update.
    assert_eq!(frames, vec![0, 1, 1, 2, 2, 3, 3, 4, 4, 1]);
    player.handle_inputs(90, false);
    player.update(&mut map, 100_000);
    assert_eq!(player.frame, 0);
}

#[test]
fn turning_keeps_heading_and_plane_at_a_right_angle() {
    let mut map = WorldMap::with_floors(1);
    let mut player = Player::new(Vector3f::new(5_500_000, 5_500_000, 0));
    player.handle_inputs(68, true);
    for _ in 0..30 {
        player.update(&mut map, FRAME);
        let dx = player.dir.x as f64 / 1e6;
        let dy = player.dir.y as f64 / 1e6;
        let px = player.plane.x as f64 / 1e6;
        let py = player.plane.y as f64 / 1e6;
        assert!((dx * dx + dy * dy - 1.0).abs() < 1e-3);
        assert!((px * px + py * py - 0.66 * 0.66).abs() < 1e-3);
        assert!((dx * px + dy * py).abs() < 1e-3);
    }
    // Half a second at 3.5 radians per second from a quarter turn.
    let angle = std::f64::consts::FRAC_PI_2 + 3.5 * 30.0 * 0.016_667;
    assert!((player.dir.x as f64 / 1e6 - angle.cos()).abs() < 1e-3);
    assert!((player.dir.y as f64 / 1e6 - angle.sin()).abs() < 1e-3);
    assert_eq!(player.pos, Vector3f::new(5_500_000, 5_500_000, 0));
}

#[test]
fn a_jump_rises_and_comes_back_to_the_ground() {
    let mut map = WorldMap::with_floors(1);
    let mut player = Player::new(Vector3f::new(5_500_000, 5_500_000, 0));
    player.handle_inputs(32, true);
    player.update(&mut map, 100_000);
    assert_eq!(player.pos.z, 165_000);
    assert_eq!(player.velocity.y, 1_270_000);
    player.update(&mut map, 100_000);
    assert_eq!(player.pos.z, 292_000);
    assert_eq!(player.velocity.y, 890_000);
    let mut highest = 0;
    let mut updates = 2;
    while player.pos.z > 0 {
        highest = highest.max(player.pos.z);
        player.update(&mut map, 100_000);
        updates += 1;
        assert!(updates < 100);
    }
    assert_eq!(highest, 445_000);
    assert_eq!(player.pos.z, 0);
    assert_eq!(player.velocity.y, 0);
    assert_eq!(updates, 10);
    player.update(&mut map, 100_000);
    assert_eq!(player.pos.z, 0);
    assert_eq!(player.velocity.y, 0);
}

#[test]
fn a_falling_player_lands_on_a_short_wall() {
    let mut map = WorldMap::with_floors(1);
    map.place(5, 5, 0, Cell::Wall { value: 1, height: 300_000 });
    let mut player = Player::new(Vector3f::new(5_500_000, 5_500_000, 900_000));
    for _ in 0..100 {
        player.update(&mut map, FRAME);
    }
    assert_eq!(player.pos.z, 300_000);
    assert_eq!(player.velocity.y, 0);
}

#[test]
fn a_full_wall_stops_the_player() {
    let mut map = WorldMap::with_floors(1);
    map.place(10, 10, 0, Cell::Wall { value: 1, height: ONE });
    let mut player = player_at(9_500_000, 10_500_000, 0, 0);
    player.handle_inputs(90, true);
    for _ in 0..60 {
        player.update(&mut map, FRAME);
        assert!(player.pos.x < 10 * ONE);
    }
    // Seven steps of 4 / 60 fit in front of the wall.
    assert_eq!(player.pos.x, 9_500_000 + 7 * 66_668);
    assert_eq!(player.pos.y, 10_500_000);
}

#[test]
fn a_wall_stops_one_axis_and_lets_the_other_go() {
    let mut map = WorldMap::with_floors(1);
    map.place(10, 10, 0, Cell::Wall { value: 1, height: ONE });
    let mut player = player_at(9_900_000, 10_500_000, 0, 0);
    player.dir = Vector2::new(600_000, 800_000);
    player.handle_inputs(90, true);
    player.update(&mut map, 100_000);
    assert_eq!(player.pos, Vector3f::new(9_900_000, 10_820_000, 0));
}

#[test]
fn a_player_above_a_short_wall_walks_over_it() {
    let mut map = WorldMap::with_floors(1);
    map.place(10, 10, 0, Cell::Wall { value: 1, height: 300_000 });
    let mut player = player_at(9_500_000, 10_500_000, HALF, 0);
    player.handle_inputs(90, true);
    for _ in 0..15 {
        player.update(&mut map, FRAME);
    }
    // A quarter of a second: one unit of way, over the wall and still falling.
    assert!(player.pos.x > 10 * ONE && player.pos.x <= 11 * ONE);
    assert_eq!(player.pos.x, 9_500_000 + 15 * 66_668);
    assert!(player.pos.z > 300_000 && player.pos.z < HALF);
    for _ in 0..7 {
        player.update(&mut map, FRAME);
    }
    // The player has landed on the wall and walks on its top.
    assert!(player.pos.x > 10 * ONE && player.pos.x <= 11 * ONE);
    assert_eq!(player.pos.z, 300_000);
    assert_eq!(player.velocity.y, 0);
    for _ in 0..8 {
        player.update(&mut map, FRAME);
    }
    // Half a second: two units of way, over the wall and down again.
    assert_eq!(player.pos.x, 9_500_000 + 30 * 66_668);
    assert!(player.pos.z < 300_000);
}

#[test]
fn a_player_on_the_ground_is_stopped_by_a_short_wall() {
    let mut map = WorldMap::with_floors(1);
    map.place(10, 10, 0, Cell::Wall { value: 1, height: 300_000 });
    let mut player = player_at(9_500_000, 10_500_000, 0, 0);
    player.handle_inputs(90, true);
    for _ in 0..60 {
        player.update(&mut map, FRAME);
    }
    assert!(player.pos.x < 10 * ONE);
}

#[test]
fn a_closed_door_stops_the_player_and_an_open_one_does_not() {
    let mut map = WorldMap::with_floors(1);
    map.place(5, 5, 0, Cell::thin(13, Direction::North, false));
    let mut player = player_at(5_500_000, 4_500_000, 0, 1);
    player.handle_inputs(90, true);
    for _ in 0..30 {
        player.update(&mut map, FRAME);
        assert!(player.pos.y < 5_500_000);
    }
    // The door stands in the middle of its cell.
    assert!(player.pos.y > 5_400_000);

    map.trigger_at(&Vector3f::new(5 * ONE, 5 * ONE, 0));
    for _ in 0..17 {
        map.update(100_000);
    }
    for _ in 0..30 {
        player.update(&mut map, FRAME);
    }
    assert!(player.pos.y > 6 * ONE);
}

#[test]
fn a_thin_wall_along_the_way_does_not_stop_the_player() {
    let mut map = WorldMap::with_floors(1);
    map.place(5, 5, 0, Cell::thin(13, Direction::North, false));
    let mut player = player_at(4_500_000, 5_250_000, 0, 0);
    player.handle_inputs(90, true);
    for _ in 0..30 {
        player.update(&mut map, FRAME);
    }
    assert_eq!(player.pos.x, 4_500_000 + 30 * 66_668);
}

#[test]
fn the_player_sets_off_the_door_in_sight() {
    let mut map = WorldMap::with_floors(1);
    map.place(5, 5, 0, Cell::thin(13, Direction::North, false));
    let mut player = player_at(5_500_000, 6_500_000, 0, 3);
    player.update(&mut map, 0);
    assert_eq!(door_state(&map, 5, 5), (DoorState::Closed, ONE));

    player.handle_inputs(70, true);
    player.update(&mut map, 0);
    assert_eq!(door_state(&map, 5, 5), (DoorState::Opening, ONE));

    let mut last = ONE;
    for _ in 0..15 {
        map.update(100_000);
        let (state, slide) = door_state(&map, 5, 5);
        assert_eq!(state, DoorState::Opening);
        assert!(slide <= last);
        last = slide;
    }
    assert!(last < 100_000);
    map.update(100_000);
    assert_eq!(door_state(&map, 5, 5), (DoorState::Opening, 0));
    map.update(100_000);
    assert_eq!(door_state(&map, 5, 5), (DoorState::Opened, 0));
    for _ in 0..29 {
        map.update(100_000);
        assert_eq!(door_state(&map, 5, 5), (DoorState::Opened, 0));
    }
    map.update(100_000);
    assert_eq!(door_state(&map, 5, 5).0, DoorState::Closing);
    for _ in 0..16 {
        map.update(100_000);
    }
    assert_eq!(door_state(&map, 5, 5), (DoorState::Closing, ONE));
    map.update(100_000);
    assert_eq!(door_state(&map, 5, 5), (DoorState::Closed, ONE));
}

#[test]
fn a_panel_along_the_line_of_sight_does_not_stand_in_the_way() {
    // A new player looks along the second axis. The panel of the player's
    // own cell stands on an east face, along the line of sight, and the door
    // one cell on is set off.
    let mut map = WorldMap::with_floors(1);
    map.place(5, 5, 0, Cell::thin(1, Direction::East, true));
    map.place(5, 6, 0, Cell::thin(13, Direction::North, false));
    let mut player = Player::new(Vector3f::new(5_500_000, 5_500_000, 0));
    player.handle_inputs(70, true);
    player.update(&mut map, 0);
    assert_eq!(door_state(&map, 5, 6), (DoorState::Opening, ONE));
    assert_eq!(
        *map.get(&Vector3f::new(5 * ONE, 5 * ONE, 0)),
        Cell::thin(1, Direction::East, true)
    );
}

#[test]
fn a_door_out_of_reach_is_not_set_off() {
    let mut map = WorldMap::with_floors(1);
    map.place(5, 5, 0, Cell::thin(13, Direction::North, false));
    // The door is in the middle of its cell: 1.6 away, then 1.5.
    let mut far = player_at(5_500_000, 7_100_000, 0, 3);
    far.handle_inputs(70, true);
    far.update(&mut map, 0);
    assert_eq!(door_state(&map, 5, 5), (DoorState::Closed, ONE));
    let mut near = player_at(5_500_000, 7_000_000, 0, 3);
    near.handle_inputs(70, true);
    near.update(&mut map, 0);
    assert_eq!(door_state(&map, 5, 5), (DoorState::Opening, ONE));
}

#[test]
fn a_pushed_panel_vanishes_from_the_map() {
    let mut map = WorldMap::with_floors(1);
    map.place(5, 5, 0, Cell::thin(2, Direction::North, true));
    let mut player = player_at(5_500_000, 6_500_000, 0, 3);
    player.handle_inputs(70, true);
    player.update(&mut map, 0);
    for _ in 0..120 {
        map.update(FRAME);
    }
    assert_eq!(*map.get(&Vector3f::new(5 * ONE, 5 * ONE, 0)), Cell::Empty);
}

#[test]
fn a_step_into_a_portal_comes_out_on_the_far_side() {
    let mut map = WorldMap::with_floors(1);
    let a = Portal::new(Vector3f::new(5 * ONE, 5 * ONE, 0), Direction::North, 0);
    let b = Portal::new(Vector3f::new(20 * ONE, 5 * ONE, 0), Direction::South, 0);
    map.link(Some(a), Some(b));
    let mut player = player_at(5_500_000, 4_900_000, 0, 1);
    let old = player.pos;
    player.handle_inputs(90, true);
    player.update(&mut map, 50_000);

    // South from north: no turn, x = b.x + (p.x - a.x), y = b.y + 1 + (p.y - a.y),
    // and the step of 0.2 along the heading on top.
    let speed = fx_mul(WALK_SPEED, 50_000);
    assert_eq!(speed, 200_000);
    assert_eq!(player.dir, Vector2::new(0, ONE));
    assert_eq!(player.pos.x, fx_add(b.link_x(&a, &old), fx_mul(player.dir.x, speed)));
    assert_eq!(player.pos.y, fx_add(b.link_y(&a, &old), fx_mul(player.dir.y, speed)));
    assert_eq!(player.pos, Vector3f::new(20_500_000, 6_100_000, 0));
}

#[test]
fn a_portal_turns_the_player_and_changes_the_floor() {
    let mut map = WorldMap::with_floors(2);
    let a = Portal::new(Vector3f::new(5 * ONE, 5 * ONE, 0), Direction::North, 0);
    let b = Portal::new(Vector3f::new(20 * ONE, 30 * ONE, ONE), Direction::East, 0);
    map.link(Some(b), Some(a));
    let mut player = player_at(5_250_000, 4_900_000, 0, 1);
    player.handle_inputs(90, true);
    player.update(&mut map, 50_000);
    // East from north turns by a quarter turn: the heading along the second
    // axis becomes one against the first.
    assert_eq!(player.dir, Vector2::new(-ONE, 0));
    assert_eq!(player.plane, Vector2::new(0, -660_000));
    // x = b.x - 1 + (a.y + 1 - p.y) - 0.2, y = b.y + (p.x - a.x).
    assert_eq!(player.pos, Vector3f::new(19_900_000, 30_250_000, ONE));
}

#[test]
fn a_portal_with_one_side_is_not_entered() {
    let mut map = WorldMap::with_floors(1);
    let a = Portal::new(Vector3f::new(5 * ONE, 5 * ONE, 0), Direction::North, 0);
    map.link(Some(a), None);
    let mut player = player_at(5_500_000, 4_900_000, 0, 1);
    player.handle_inputs(90, true);
    player.update(&mut map, 50_000);
    assert_eq!(player.pos, Vector3f::new(5_500_000, 5_100_000, 0));
}
