use raycaster::cell::{Cell, Interaction};
use raycaster::direction::Direction;
use raycaster::fixed::{HALF, ONE, QUARTER_TURN};
use raycaster::map::WorldMap;
use raycaster::player::Player;
use raycaster::portal::Portal;
use raycaster::rayobject::{Hit, Ray};
use raycaster::vectors::{Vector2, Vector2f, Vector3f};

/// A player at `(x, y, z)` whose camera has been turned by `turns` quarter
/// turns from looking along the first axis.
fn player_at(x: i64, y: i64, z: i64, turns: i64) -> Player {
    let mut player = Player::new(Vector3f::new(x, y, z));
    player.dir = Vector2::new(ONE, 0);
    player.plane = Vector2::new(0, 660_000);
    player.dir.rotate(turns * QUARTER_TURN);
    player.plane.rotate(turns * QUARTER_TURN);
    player
}

fn centre(player: &Player, map: &WorldMap) -> Hit {
    Ray::new(player, Vector2f::zero()).cast(map)
}

#[test]
fn a_new_ray_is_set_up_for_the_walk() {
    let player = player_at(5_250_000, 7_750_000, 0, 0);
    let ray = Ray::new(&player, Vector2::new(HALF, -HALF));
    assert_eq!(ray.pos, Vector3f::new(5 * ONE, 7 * ONE, 0));
    assert_eq!(ray.ray_dir, Vector3f::new(ONE, 330_000, -250_000));
    assert_eq!(ray.delta, Vector3f::new(ONE, 3_030_303, 4 * ONE));
    assert_eq!(ray.step, Vector3f::new(ONE, ONE, ONE));
    assert_eq!(ray.side_dist, Vector3f::new(750_000, 757_575, 2 * ONE));
    assert_eq!(ray.origin, Vector3f::new(5_250_000, 7_750_000, HALF));
    assert_eq!(ray.portal_recursion, 0);
}

#[test]
fn a_ray_against_the_axes_steps_down() {
    let player = player_at(5_250_000, 7_750_000, 0, 2);
    let ray = Ray::new(&player, Vector2::new(HALF, HALF));
    assert_eq!(ray.ray_dir, Vector3f::new(-ONE, -330_000, 250_000));
    assert_eq!(ray.step, Vector3f::new(-ONE, -ONE, -ONE));
    assert_eq!(ray.side_dist, Vector3f::new(250_000, 2_272_727, 2 * ONE));
}

#[test]
fn a_ray_crosses_the_nearest_face() {
    let player = player_at(5_250_000, 7_750_000, 0, 0);
    let mut ray = Ray::new(&player, Vector2::new(HALF, -HALF));
    ray.grow();
    assert_eq!(ray.pos, Vector3f::new(6 * ONE, 7 * ONE, 0));
    assert_eq!(ray.side_dist.x, 1_750_000);
    ray.grow();
    assert_eq!(ray.pos, Vector3f::new(6 * ONE, 8 * ONE, 0));
    assert_eq!(ray.side_dist.y, 757_575 + 3_030_303);
    ray.grow();
    assert_eq!(ray.pos, Vector3f::new(7 * ONE, 8 * ONE, 0));
    ray.grow();
    assert_eq!(ray.pos, Vector3f::new(7 * ONE, 8 * ONE, ONE));
}

#[test]
fn a_wall_straight_ahead_is_hit_at_its_distance() {
    let mut map = WorldMap::with_floors(1);
    map.place(10, 5, 0, Cell::Wall { value: 1, height: ONE });
    map.place(5, 9, 0, Cell::Wall { value: 2, height: ONE });
    map.place(2, 5, 0, Cell::Wall { value: 3, height: ONE });
    map.place(5, 1, 0, Cell::Wall { value: 4, height: ONE });

    let east = centre(&player_at(5_500_000, 5_500_000, 0, 0), &map);
    assert_eq!(east.value, Some(1));
    assert_eq!(east.dist, 4_500_000);
    assert_eq!(east.dir, Direction::East);
    assert_eq!(east.pos, Vector3f::new(10 * ONE, 5 * ONE, 0));
    assert_eq!(east.texture_pos, Vector2::new(HALF, HALF));

    let north = centre(&player_at(5_500_000, 5_500_000, 0, 1), &map);
    assert_eq!(north.value, Some(2));
    assert_eq!(north.dist, 3_500_000);
    assert_eq!(north.dir, Direction::North);

    let west = centre(&player_at(5_500_000, 5_500_000, 0, 2), &map);
    assert_eq!(west.value, Some(3));
    assert_eq!(west.dist, 2_500_000);
    assert_eq!(west.dir, Direction::West);

    let south = centre(&player_at(5_500_000, 5_500_000, 0, 3), &map);
    assert_eq!(south.value, Some(4));
    assert_eq!(south.dist, 3_500_000);
    assert_eq!(south.dir, Direction::South);
}

#[test]
fn a_wall_is_hit_at_any_distance_within_range() {
    for d in 1..30 {
        let mut map = WorldMap::with_floors(1);
        map.place((40 + d) as usize, 40, 0, Cell::Wall { value: 9, height: ONE });
        let hit = centre(&player_at(40_250_000, 40_500_000, 0, 0), &map);
        assert_eq!(hit.value, Some(9));
        assert_eq!(hit.dist, d * ONE - 250_000);
        assert_eq!(hit.dir, Direction::East);
    }
}

#[test]
fn a_wall_thirty_cells_ahead_is_in_sight_along_an_axis() {
    for (turns, dx, dy) in [(0, 1, 0), (1, 0, 1)] {
        let mut map = WorldMap::with_floors(1);
        map.place((40 + 30 * dx) as usize, (40 + 30 * dy) as usize, 0, Cell::Wall { value: 9, height: ONE });
        // From the corner of the cell with the least coordinates, and from
        // as near to the opposite corner as can be.
        for at in [40 * ONE, 40 * ONE + 999_999] {
            let hit = centre(&player_at(at, at, 0, turns), &map);
            assert_eq!(hit.value, Some(9));
            assert_eq!(hit.dist, 70 * ONE - at);
        }
    }
}

#[test]
fn against_an_axis_sight_is_a_cell_shorter() {
    for (turns, dx, dy) in [(2, 1, 0), (3, 0, 1)] {
        let mut near = WorldMap::with_floors(1);
        near.place((40 - 29 * dx) as usize, (40 - 29 * dy) as usize, 0, Cell::Wall { value: 9, height: ONE });
        let mut far = WorldMap::with_floors(1);
        far.place((40 - 30 * dx) as usize, (40 - 30 * dy) as usize, 0, Cell::Wall { value: 9, height: ONE });
        for at in [40 * ONE, 40 * ONE + 999_999] {
            let hit = centre(&player_at(at, at, 0, turns), &near);
            assert_eq!(hit.value, Some(9));
            assert_eq!(hit.dist, at - 12 * ONE);
        }
        // Thirty cells on, the wall is seen from one corner of the cell and
        // out of range from the other.
        assert_eq!(centre(&player_at(40 * ONE, 40 * ONE, 0, turns), &far).value, Some(9));
        let corner = 40 * ONE + 999_999;
        assert_eq!(centre(&player_at(corner, corner, 0, turns), &far).value, None);
    }
}

#[test]
fn a_ray_through_air_gives_up_out_of_range() {
    let map = WorldMap::with_floors(1);
    let hit = centre(&player_at(5_500_000, 5_500_000, 0, 0), &map);
    assert_eq!(hit.value, None);
    assert_eq!(hit.pos, Vector3f::new(36 * ONE, 5 * ONE, 0));
    assert_eq!(hit.dist, 30_500_000);
    assert_eq!(hit.texture_pos, Vector2f::zero());
}

#[test]
fn a_wall_beyond_the_range_in_air_is_still_hit() {
    // Air ends a walk only where the ray is; a wall cell is looked at first.
    let mut map = WorldMap::with_floors(1);
    map.place(36, 5, 0, Cell::Wall { value: 1, height: ONE });
    let hit = centre(&player_at(5_500_000, 5_500_000, 0, 0), &map);
    assert_eq!(hit.value, Some(1));
    map.place(36, 5, 0, Cell::Empty);
    map.place(37, 5, 0, Cell::Wall { value: 1, height: ONE });
    let hit = centre(&player_at(5_500_000, 5_500_000, 0, 0), &map);
    assert_eq!(hit.value, None);
}

#[test]
fn a_ray_that_leaves_the_floors_finds_nothing() {
    let mut map = WorldMap::with_floors(1);
    map.place(10, 5, 0, Cell::Wall { value: 1, height: ONE });
    let player = player_at(5_500_000, 5_500_000, 0, 0);
    let down = Ray::new(&player, Vector2::new(0, ONE)).cast(&map);
    assert_eq!(down.value, None);
    assert_eq!(down.dir, Direction::Up);
    assert_eq!(down.pos, Vector3f::new(6 * ONE, 5 * ONE, -ONE));
    assert_eq!(down.dist, -ONE);
    let up = Ray::new(&player, Vector2::new(0, -ONE)).cast(&map);
    assert_eq!(up.value, None);
    assert_eq!(up.dir, Direction::Down);
    assert_eq!(up.pos, Vector3f::new(6 * ONE, 5 * ONE, ONE));
}

#[test]
fn a_ray_in_a_map_without_floors_finds_nothing() {
    let map = WorldMap::with_floors(0);
    let hit = centre(&player_at(5_500_000, 5_500_000, 0, 0), &map);
    assert_eq!(hit.value, None);
    assert_eq!(hit.pos, Vector3f::new(5 * ONE, 5 * ONE, 0));
    assert_eq!(hit.dist, 0);
    assert_eq!(hit.dir, Direction::Unset);
}

#[test]
fn an_eye_in_the_cell_of_a_short_wall_looks_out_of_it() {
    let mut map = WorldMap::with_floors(1);
    map.place(8, 5, 0, Cell::Wall { value: 5, height: 300_000 });
    map.place(12, 5, 0, Cell::Wall { value: 6, height: ONE });
    let hit = centre(&player_at(8_500_000, 5_500_000, 300_000, 0), &map);
    assert_eq!(hit.value, Some(6));
    assert_eq!(hit.dist, 3_500_000);
}

#[test]
fn a_short_wall_is_hit_below_its_top() {
    let mut map = WorldMap::with_floors(1);
    map.place(10, 5, 0, Cell::Wall { value: 5, height: 600_000 });
    let hit = centre(&player_at(8_500_000, 5_500_000, 0, 0), &map);
    assert_eq!(hit.value, Some(5));
    assert_eq!(hit.dist, 1_500_000);
    assert_eq!(hit.dir, Direction::East);
    assert_eq!(hit.texture_pos.y, HALF);
}

#[test]
fn a_ray_goes_over_a_short_wall() {
    let mut map = WorldMap::with_floors(1);
    map.place(10, 5, 0, Cell::Wall { value: 5, height: 300_000 });
    map.place(14, 5, 0, Cell::Wall { value: 6, height: ONE });
    let hit = centre(&player_at(8_500_000, 5_500_000, 0, 0), &map);
    assert_eq!(hit.value, Some(6));
    assert_eq!(hit.dist, 5_500_000);
}

#[test]
fn a_ray_comes_down_on_a_short_wall() {
    let mut map = WorldMap::with_floors(1);
    map.place(10, 5, 0, Cell::Wall { value: 5, height: 300_000 });
    map.place(14, 5, 0, Cell::Wall { value: 6, height: ONE });
    let player = player_at(8_500_000, 5_500_000, 0, 0);
    // The ray falls by a tenth for each unit of its way: it is at 0.35 over
    // the near side of the wall and at 0.25 over the far side.
    let hit = Ray::new(&player, Vector2::new(0, 200_000)).cast(&map);
    assert_eq!(hit.value, Some(5));
    assert_eq!(hit.dir, Direction::Up);
    assert_eq!(hit.pos, Vector3f::new(11 * ONE, 5 * ONE, 0));
    // It is down to 0.3 after two units.
    assert_eq!(hit.dist, -2 * ONE);
    assert_eq!(hit.texture_pos.x, HALF);
}

#[test]
fn a_ray_comes_down_on_a_short_wall_from_every_side() {
    // The wall two cells ahead, the eye a cell and a half from its near face.
    for (turns, x, y, behind) in [
        (0, 8_500_000, 5_500_000, (11, 5)),
        (2, 12_500_000, 5_500_000, (9, 5)),
        (1, 10_500_000, 3_500_000, (10, 6)),
        (3, 10_500_000, 7_500_000, (10, 4)),
    ] {
        let mut map = WorldMap::with_floors(1);
        map.place(10, 5, 0, Cell::Wall { value: 5, height: 300_000 });
        let hit = Ray::new(&player_at(x, y, 0, turns), Vector2::new(0, 200_000)).cast(&map);
        assert_eq!(hit.value, Some(5));
        assert_eq!(hit.dir, Direction::Up);
        assert_eq!(hit.dist, -2 * ONE);
        assert_eq!(hit.pos, Vector3f::new(behind.0 * ONE, behind.1 * ONE, 0));
    }
}

#[test]
fn an_eye_on_a_short_wall_sees_its_top_when_it_looks_down() {
    let mut map = WorldMap::with_floors(1);
    map.place(8, 5, 0, Cell::Wall { value: 5, height: 300_000 });
    // The eye is 0.8 above the ground, the top of the wall 0.3, and the ray
    // falls by one for each unit of its way: it is level with the top after
    // half a unit, where it leaves the cell.
    let player = player_at(8_500_000, 5_500_000, 300_000, 0);
    let hit = Ray::new(&player, Vector2::new(0, 2 * ONE)).cast(&map);
    assert_eq!(hit.value, Some(5));
    assert_eq!(hit.dir, Direction::Up);
    assert_eq!(hit.dist, -HALF);
    assert_eq!(hit.pos, Vector3f::new(9 * ONE, 5 * ONE, 0));
}

#[test]
fn a_ray_that_rises_over_a_short_wall_goes_on() {
    let mut map = WorldMap::with_floors(1);
    map.place(10, 5, 0, Cell::Wall { value: 5, height: 300_000 });
    map.place(14, 5, 0, Cell::Wall { value: 6, height: ONE });
    let player = player_at(8_500_000, 5_500_000, 0, 0);
    let hit = Ray::new(&player, Vector2::new(0, -100_000)).cast(&map);
    assert_eq!(hit.value, Some(6));
    assert_eq!(hit.dir, Direction::East);
}

#[test]
fn a_closed_door_is_hit_in_the_middle_of_its_cell() {
    let mut map = WorldMap::with_floors(1);
    map.place(5, 5, 0, Cell::thin(13, Direction::North, false));
    let from_above = centre(&player_at(5_500_000, 6_500_000, 0, 3), &map);
    assert_eq!(from_above.value, Some(13));
    assert_eq!(from_above.dist, ONE);
    assert_eq!(from_above.dir, Direction::North);
    assert_eq!(from_above.pos, Vector3f::new(5 * ONE, 5 * ONE, 0));
    assert_eq!(from_above.texture_pos, Vector2::new(HALF, HALF));
    let from_below = centre(&player_at(5_500_000, 3_500_000, 0, 1), &map);
    assert_eq!(from_below.value, Some(13));
    assert_eq!(from_below.dist, 2 * ONE);
}

#[test]
fn a_door_on_a_west_face_is_hit_from_both_sides() {
    let mut map = WorldMap::with_floors(1);
    map.place(5, 5, 0, Cell::thin(13, Direction::West, false));
    let from_left = centre(&player_at(3_500_000, 5_500_000, 0, 0), &map);
    assert_eq!(from_left.value, Some(13));
    assert_eq!(from_left.dist, 2 * ONE);
    assert_eq!(from_left.dir, Direction::West);
    let from_right = centre(&player_at(7_500_000, 5_250_000, 0, 2), &map);
    assert_eq!(from_right.value, Some(13));
    assert_eq!(from_right.dist, 2 * ONE);
    assert_eq!(from_right.texture_pos, Vector2::new(250_000, HALF));
}

#[test]
fn a_ray_along_a_thin_wall_misses_it() {
    let mut map = WorldMap::with_floors(1);
    map.place(5, 5, 0, Cell::thin(13, Direction::North, false));
    map.place(9, 5, 0, Cell::Wall { value: 1, height: ONE });
    let hit = centre(&player_at(3_500_000, 5_250_000, 0, 0), &map);
    assert_eq!(hit.value, Some(1));
    assert_eq!(hit.dist, 5_500_000);
    // A wall in the very next cell is seen through the doorway.
    map.place(6, 5, 0, Cell::Wall { value: 1, height: ONE });
    let hit = centre(&player_at(3_500_000, 5_250_000, 0, 0), &map);
    assert_eq!(hit.value, Some(15));
    assert_eq!(hit.dist, 2_500_000);
}

#[test]
fn a_ray_along_a_panel_in_the_eye_s_own_cell_misses_it() {
    for (face, turns) in [
        (Direction::North, 0),
        (Direction::North, 2),
        (Direction::South, 0),
        (Direction::South, 2),
        (Direction::East, 1),
        (Direction::East, 3),
        (Direction::West, 1),
        (Direction::West, 3),
    ] {
        for pushable in [true, false] {
            let mut map = WorldMap::with_floors(1);
            map.place(5, 5, 0, Cell::thin(1, face, pushable));
            for i in [1, 9] {
                map.place(i, 5, 0, Cell::Wall { value: 7, height: ONE });
                map.place(5, i, 0, Cell::Wall { value: 7, height: ONE });
            }
            // From the middle of the cell, and from its very corner.
            for at in [5_500_000, 5 * ONE] {
                let hit = centre(&player_at(at, at, 0, turns), &map);
                assert_eq!(hit.value, Some(7), "{:?} {} {}", face, turns, at);
                assert!(hit.dist >= 3 * ONE && hit.dist <= 4 * ONE + 1);
            }
        }
    }
}

#[test]
fn a_ray_across_a_panel_in_the_eye_s_own_cell_can_hit_it() {
    // The panel stands in the middle of the cell, the eye a quarter of a
    // cell in front of it.
    let mut map = WorldMap::with_floors(1);
    map.place(5, 5, 0, Cell::thin(1, Direction::North, false));
    let hit = centre(&player_at(5_500_000, 5_250_000, 0, 1), &map);
    assert_eq!(hit.value, Some(1));
    assert_eq!(hit.dist, 250_000);
    assert_eq!(hit.pos, Vector3f::new(5 * ONE, 5 * ONE, 0));
}

#[test]
fn an_open_door_lets_the_ray_through() {
    let mut map = WorldMap::with_floors(1);
    map.place(5, 5, 0, Cell::thin(13, Direction::North, false));
    map.place(5, 3, 0, Cell::Wall { value: 1, height: ONE });
    map.place(5, 4, 0, Cell::Empty);
    map.trigger_at(&Vector3f::new(5 * ONE, 5 * ONE, 0));
    for _ in 0..17 {
        map.update(100_000);
    }
    let hit = centre(&player_at(5_500_000, 6_500_000, 0, 3), &map);
    assert_eq!(hit.value, Some(1));
    assert_eq!(hit.dist, 2_500_000);
}

#[test]
fn a_wall_right_behind_an_open_door_shows_the_door_frame() {
    let mut map = WorldMap::with_floors(1);
    map.place(5, 5, 0, Cell::thin(13, Direction::North, false));
    map.place(5, 4, 0, Cell::Wall { value: 1, height: ONE });
    map.trigger_at(&Vector3f::new(5 * ONE, 5 * ONE, 0));
    for _ in 0..17 {
        map.update(100_000);
    }
    let hit = centre(&player_at(5_500_000, 6_500_000, 0, 3), &map);
    assert_eq!(hit.value, Some(15));
    assert_eq!(hit.dist, 1_500_000);
}

#[test]
fn a_half_open_door_covers_the_start_of_its_cell() {
    let mut map = WorldMap::with_floors(1);
    map.place(5, 5, 0, Cell::thin(13, Direction::North, false));
    map.place(5, 3, 0, Cell::Wall { value: 1, height: ONE });
    map.trigger_at(&Vector3f::new(5 * ONE, 5 * ONE, 0));
    // After ten updates of a tenth of a second nine tenths show: the slide
    // is 1 - 0.9 / 1.5 = 0.4.
    for _ in 0..10 {
        map.update(100_000);
    }
    let covered = centre(&player_at(5_200_000, 6_500_000, 0, 3), &map);
    assert_eq!(covered.value, Some(13));
    assert_eq!(covered.dist, ONE);
    // The texture has moved along with the panel.
    assert_eq!(covered.texture_pos.x, 800_000);
    let open = centre(&player_at(5_500_000, 6_500_000, 0, 3), &map);
    assert_eq!(open.value, Some(1));
}

#[test]
fn a_panel_that_can_be_pushed_stands_on_its_face() {
    let mut map = WorldMap::with_floors(1);
    map.place(5, 5, 0, Cell::thin(2, Direction::North, true));
    let hit = centre(&player_at(5_500_000, 6_500_000, 0, 3), &map);
    assert_eq!(hit.value, Some(2));
    assert_eq!(hit.dist, HALF);
    map.trigger_at(&Vector3f::new(5 * ONE, 5 * ONE, 0));
    map.update(ONE);
    let hit = centre(&player_at(5_500_000, 6_500_000, 0, 3), &map);
    assert_eq!(hit.value, Some(2));
    assert_eq!(hit.dist, ONE);
}

#[test]
fn a_ray_passes_a_portal_to_the_far_side() {
    let a = Portal::new(Vector3f::new(3 * ONE, 5 * ONE, 0), Direction::East, 0);
    let b = Portal::new(Vector3f::new(7 * ONE, 5 * ONE, 0), Direction::West, 0);
    let player = player_at(2_500_000, 5_250_000, 0, 0);
    let mut ray = Ray::new(&player, Vector2f::zero());
    ray.grow();
    assert!(ray.pass_through_portal(&b, &a));
    assert_eq!(ray.portal_recursion, 1);
    // The origin is as far behind the near face of the far portal as it was
    // behind that of the near one, and the ray has left the far portal's cell.
    assert_eq!(ray.origin, Vector3f::new(7_500_000, 5_250_000, HALF));
    assert_eq!(ray.ray_dir, Vector3f::new(ONE, 0, 0));
    assert_eq!(ray.pos, Vector3f::new(8 * ONE, 5 * ONE, 0));
}

#[test]
fn a_ray_passes_three_portals_and_no_more() {
    let a = Portal::new(Vector3f::new(3 * ONE, 5 * ONE, 0), Direction::East, 0);
    let b = Portal::new(Vector3f::new(ONE, 5 * ONE, 0), Direction::West, 0);
    let player = player_at(2_500_000, 5_250_000, 0, 0);
    let mut ray = Ray::new(&player, Vector2f::zero());
    assert!(ray.pass_through_portal(&b, &a));
    assert!(ray.pass_through_portal(&b, &a));
    assert!(ray.pass_through_portal(&b, &a));
    assert_eq!(ray.portal_recursion, 3);
    let stuck = ray;
    assert!(!ray.pass_through_portal(&b, &a));
    assert_eq!(ray, stuck);
}

#[test]
fn a_portal_turns_the_ray() {
    let a = Portal::new(Vector3f::new(3 * ONE, 5 * ONE, 0), Direction::East, 0);
    let b = Portal::new(Vector3f::new(20 * ONE, 30 * ONE, ONE), Direction::North, 0);
    let player = player_at(2_500_000, 5_250_000, 0, 0);
    let mut ray = Ray::new(&player, Vector2f::zero());
    assert!(ray.pass_through_portal(&b, &a));
    // North from east turns by -5 quarter turns: a heading along the first
    // axis becomes one against the second.
    assert_eq!(ray.ray_dir, Vector3f::new(0, -ONE, 0));
    // x = b.x + (p.y - a.y), y = b.y - 1 + (a.x + 1 - p.x), one floor up.
    assert_eq!(ray.origin, Vector3f::new(20_250_000, 30_500_000, ONE + HALF));
}
