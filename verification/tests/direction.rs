use raycaster::direction::Direction;

#[test]
fn names_are_read() {
    assert_eq!(Direction::from_str("North"), Direction::North);
    assert_eq!(Direction::from_str("North/South"), Direction::North);
    assert_eq!(Direction::from_str("West"), Direction::West);
    assert_eq!(Direction::from_str("East/West"), Direction::West);
    assert_eq!(Direction::from_str("South"), Direction::South);
    assert_eq!(Direction::from_str("East"), Direction::East);
    assert_eq!(Direction::from_str("Up"), Direction::Unset);
    assert_eq!(Direction::from_str(""), Direction::Unset);
}

#[test]
fn the_four_sides_are_sides() {
    for side in [Direction::North, Direction::West, Direction::South, Direction::East] {
        assert!(side.is_side());
    }
    for other in [Direction::Unset, Direction::Up, Direction::Down] {
        assert!(!other.is_side());
    }
}

#[test]
fn north_south_and_up_are_under_light() {
    for lit in [Direction::North, Direction::South, Direction::Up] {
        assert!(lit.is_under_light());
    }
    for dark in [Direction::Unset, Direction::West, Direction::East, Direction::Down] {
        assert!(!dark.is_under_light());
    }
}

#[test]
fn directions_are_ordered_as_they_are_written() {
    let all = [
        Direction::Unset,
        Direction::North,
        Direction::West,
        Direction::South,
        Direction::East,
        Direction::Up,
        Direction::Down,
    ];
    for (i, a) in all.iter().enumerate() {
        assert_eq!(a.index(), i as i32);
        for b in all.iter().skip(i + 1) {
            assert!(a < b);
        }
    }
    assert_eq!(Direction::default(), Direction::Unset);
}

#[test]
fn faces_have_their_heading_in_degrees() {
    assert_eq!(Direction::North.to_degree(), 270);
    assert_eq!(Direction::West.to_degree(), 360);
    assert_eq!(Direction::South.to_degree(), 90);
    assert_eq!(Direction::East.to_degree(), 180);
    assert_eq!(Direction::Unset.to_degree(), 0);
    assert_eq!(Direction::Up.to_degree(), 0);
    assert_eq!(Direction::Down.to_degree(), 0);
}
