use raycaster::cell::door::Door;
use raycaster::cell::thinwall::ThinWall;
use raycaster::cell::{Cell, ThinObject};
use raycaster::color::HSLColor;
use raycaster::decimal::parse_decimal;
use raycaster::direction::Direction;
use raycaster::fixed::{HALF, ONE};
use raycaster::loader::{read_real, read_unsigned, to_real};
use raycaster::map::WorldMap;
use raycaster::portal::Portal;
use raycaster::sprite::Sprite;
use raycaster::vectors::Vector3f;
use serde_json::Value;

fn json(text: &str) -> Value {
    serde_json::from_str(text).unwrap()
}

#[test]
fn decimals_are_read_to_the_millionth() {
    assert_eq!(parse_decimal("0"), Some(0));
    assert_eq!(parse_decimal("12"), Some(12 * ONE));
    assert_eq!(parse_decimal("-12"), Some(-12 * ONE));
    assert_eq!(parse_decimal("0.5"), Some(HALF));
    assert_eq!(parse_decimal("0.3"), Some(300_000));
    assert_eq!(parse_decimal("1.0"), Some(ONE));
    assert_eq!(parse_decimal("-0.25"), Some(-250_000));
    assert_eq!(parse_decimal("3.141592653589793"), Some(3_141_592));
    assert_eq!(parse_decimal("-3.1415929"), Some(-3_141_592));
    assert_eq!(parse_decimal("0.000001"), Some(1));
    assert_eq!(parse_decimal("0.0000009"), Some(0));
    assert_eq!(parse_decimal("007.10"), Some(7_100_000));
    assert_eq!(parse_decimal("999999999999.999999"), Some(999_999_999_999_999_999));
}

#[test]
fn decimals_with_an_exponent_are_read() {
    assert_eq!(parse_decimal("1e5"), Some(100_000 * ONE));
    assert_eq!(parse_decimal("1E5"), Some(100_000 * ONE));
    assert_eq!(parse_decimal("1e+5"), Some(100_000 * ONE));
    assert_eq!(parse_decimal("1.5e-3"), Some(1_500));
    assert_eq!(parse_decimal("-1.5e-3"), Some(-1_500));
    assert_eq!(parse_decimal("5e-6"), Some(5));
    assert_eq!(parse_decimal("1e-5"), Some(10));
    assert_eq!(parse_decimal("9.99e-6"), Some(9));
    assert_eq!(parse_decimal("9.99e-7"), Some(0));
    assert_eq!(parse_decimal("1e-999"), Some(0));
    assert_eq!(parse_decimal("-1e-999"), Some(0));
    assert_eq!(parse_decimal("1.25e0"), Some(1_250_000));
    assert_eq!(parse_decimal("1.25e1"), Some(12_500_000));
    assert_eq!(parse_decimal("1.25e2"), Some(125 * ONE));
    assert_eq!(parse_decimal("1.25e3"), Some(1_250 * ONE));
    assert_eq!(parse_decimal("123.456e-2"), Some(1_234_560));
    assert_eq!(parse_decimal("0.001e3"), Some(ONE));
    assert_eq!(parse_decimal("1e11"), Some(100_000_000_000 * ONE));
    assert_eq!(parse_decimal("9.99999999999999999e11"), Some(999_999_999_999_999_999));
    assert_eq!(parse_decimal("1000000000000e-1"), Some(100_000_000_000 * ONE));
    assert_eq!(parse_decimal("0e0"), Some(0));
}

#[test]
fn what_is_no_decimal_is_not_read() {
    for text in [
        "", "-", ".", ".5", "5.", "-.5", "+1", " 1", "1 ", "1,5", "1.2.3", "--1", "1-", "abc", "1a",
        "0x10", "1000000000000", "null", "true", "\"1\"", "[1]", "{}", "１", "e5", "1e", "1e+",
        "1e-", "1e5x", "1e5.0", "1.e5", "1e1234", "1e--5", "1e12", "1e300", "10e11", "0e12",
        "1e 5", "1ee5",
    ] {
        assert_eq!(parse_decimal(text), None, "{:?}", text);
    }
}

#[test]
fn members_are_read() {
    let v = json(r#"{"a": 3, "b": -3, "c": 2.5, "d": "3", "e": 3.0, "f": null, "g": [1]}"#);
    assert_eq!(read_unsigned(&v, "a"), Some(3));
    assert_eq!(read_unsigned(&v, "b"), None);
    assert_eq!(read_unsigned(&v, "c"), None);
    assert_eq!(read_unsigned(&v, "d"), None);
    assert_eq!(read_unsigned(&v, "e"), None);
    assert_eq!(read_unsigned(&v, "f"), None);
    assert_eq!(read_unsigned(&v, "missing"), None);
    assert_eq!(read_real(&v, "a"), Some(3 * ONE));
    assert_eq!(read_real(&v, "b"), Some(-3 * ONE));
    assert_eq!(read_real(&v, "c"), Some(2_500_000));
    assert_eq!(read_real(&v, "d"), None);
    assert_eq!(read_real(&v, "e"), Some(3 * ONE));
    assert_eq!(read_real(&v, "f"), None);
    assert_eq!(read_real(&v, "g"), None);
    assert_eq!(read_real(&v, "missing"), None);
    let small = json(r#"{"a": 0.0000125, "b": 2.5e-6, "c": 1e16, "d": 123456789012.5}"#);
    assert_eq!(read_real(&small, "a"), Some(12));
    assert_eq!(read_real(&small, "b"), Some(2));
    assert_eq!(read_real(&small, "c"), None);
    assert_eq!(read_real(&small, "d"), Some(123_456_789_012_500_000));
    assert_eq!(read_unsigned(&json("[1, 2]"), "a"), None);
    assert_eq!(read_real(&json("7"), "a"), None);
}

#[test]
fn whole_numbers_become_reals() {
    assert_eq!(to_real(0), 0);
    assert_eq!(to_real(99), 99 * ONE);
    assert_eq!(to_real(u64::MAX), i64::MAX);
    assert_eq!(to_real(9_223_372_036_855), i64::MAX);
    assert_eq!(to_real(9_223_372_036_854), 9_223_372_036_854 * ONE);
}

#[test]
fn a_wall_is_read_with_its_height() {
    let v = json(r#"{"pos": {"x": 1, "y": 2}, "value": 4, "height": 0.3}"#);
    assert_eq!(Cell::from_json(&v), Some(Cell::Wall { value: 4, height: 300_000 }));
    let full = json(r#"{"value": 1, "height": 1}"#);
    assert_eq!(Cell::from_json(&full), Some(Cell::Wall { value: 1, height: ONE }));
    let full = json(r#"{"value": 1, "height": 1.0}"#);
    assert_eq!(Cell::from_json(&full), Some(Cell::Wall { value: 1, height: ONE }));
}

#[test]
fn a_very_low_wall_is_read() {
    // Below a hundred-thousandth a number is printed with an exponent.
    for (text, height) in [("0.00001", 10), ("0.000005", 5), ("0.000001", 1), ("1e-6", 1)] {
        let v = json(&format!(r#"{{"value": 4, "height": {}}}"#, text));
        assert_eq!(Cell::from_json(&v), Some(Cell::Wall { value: 4, height }), "{}", text);
    }
    let level = json(r#"{"cells": [[{"pos": {"x": 1, "y": 2}, "value": 4, "height": 0.000002}]]}"#);
    let map = WorldMap::new(&level).unwrap();
    assert_eq!(
        *map.get(&Vector3f::new(ONE, 2 * ONE, 0)),
        Cell::Wall { value: 4, height: 2 }
    );
    // Less than a millionth is no height.
    let v = json(r#"{"value": 4, "height": 0.0000009}"#);
    assert_eq!(Cell::from_json(&v), None);
}

#[test]
fn a_thin_cell_is_a_door_from_thirteen_on() {
    let door = json(r#"{"value": 13, "thin": true, "direction": "North/South", "pushable": true}"#);
    assert_eq!(
        Cell::from_json(&door),
        Some(Cell::Thin(ThinObject::Door(Door::new(13, Direction::North))))
    );
    let panel = json(r#"{"value": 12, "thin": true, "direction": "East", "pushable": true}"#);
    assert_eq!(
        Cell::from_json(&panel),
        Some(Cell::Thin(ThinObject::Panel(ThinWall::new(12, Direction::East, true))))
    );
    let fixed = json(r#"{"value": 0, "thin": false, "direction": "sideways", "pushable": false}"#);
    assert_eq!(
        Cell::from_json(&fixed),
        Some(Cell::Thin(ThinObject::Panel(ThinWall::new(0, Direction::Unset, false))))
    );
}

#[test]
fn a_malformed_cell_is_not_read() {
    for text in [
        r#"[]"#,
        r#"7"#,
        r#"{}"#,
        r#"{"height": 0.5}"#,
        r#"{"value": -1, "height": 0.5}"#,
        r#"{"value": 1.5, "height": 0.5}"#,
        r#"{"value": "1", "height": 0.5}"#,
        r#"{"value": 1}"#,
        r#"{"value": 1, "height": "0.5"}"#,
        r#"{"value": 1, "height": 0}"#,
        r#"{"value": 1, "height": 0.0}"#,
        r#"{"value": 1, "height": -0.5}"#,
        r#"{"value": 1, "height": 1.000001}"#,
        r#"{"value": 1, "height": 2}"#,
        r#"{"value": 1, "thin": true}"#,
        r#"{"value": 1, "thin": true, "direction": "North"}"#,
        r#"{"value": 1, "thin": true, "pushable": true}"#,
        r#"{"value": 1, "thin": true, "direction": 1, "pushable": true}"#,
        r#"{"value": 1, "thin": true, "direction": "North", "pushable": 1}"#,
        r#"{"value": 1, "thin": true, "direction": "North", "pushable": "true"}"#,
    ] {
        assert_eq!(Cell::from_json(&json(text)), None, "{}", text);
    }
}

#[test]
fn a_texture_number_is_taken_modulo_two_to_the_thirty_two() {
    let v = json(r#"{"value": 4294967301, "height": 0.5}"#);
    assert_eq!(Cell::from_json(&v), Some(Cell::Wall { value: 5, height: HALF }));
    assert_eq!(Cell::from_parts(u64::MAX, None, Some(HALF)), Some(Cell::Wall { value: u32::MAX, height: HALF }));
}

#[test]
fn cells_are_made_from_their_parts() {
    assert_eq!(Cell::from_parts(3, None, None), None);
    assert_eq!(Cell::from_parts(3, None, Some(0)), None);
    assert_eq!(Cell::from_parts(3, None, Some(ONE + 1)), None);
    assert_eq!(Cell::from_parts(3, None, Some(1)), Some(Cell::Wall { value: 3, height: 1 }));
    assert_eq!(
        Cell::from_parts(13, Some((Direction::West, true)), Some(HALF)),
        Some(Cell::thin(13, Direction::West, true))
    );
}

#[test]
fn a_portal_side_is_read() {
    let v = json(r#"{"pos": {"x": 5, "y": 6, "z": 1}, "direction": "South", "hue": 200}"#);
    assert_eq!(
        Portal::from_json(&v),
        Some(Some(Portal {
            pos: Vector3f::new(5 * ONE, 6 * ONE, ONE),
            dir: Direction::South,
            hsl: HSLColor { h: 200 * ONE, s: 0, l: 0 },
        }))
    );
    assert_eq!(Portal::from_parts(5, 6, 1, 200, "South"), Portal::from_json(&v).unwrap().unwrap());
}

#[test]
fn what_is_no_object_is_no_portal_side() {
    for text in ["null", "7", "\"North\"", "[]", "true"] {
        assert_eq!(Portal::from_json(&json(text)), Some(None), "{}", text);
    }
}

#[test]
fn a_malformed_portal_side_is_not_read() {
    for text in [
        r#"{}"#,
        r#"{"pos": {"x": 5, "y": 6, "z": 1}, "direction": "South"}"#,
        r#"{"pos": {"x": 5, "y": 6, "z": 1}, "hue": 0}"#,
        r#"{"direction": "South", "hue": 0}"#,
        r#"{"pos": {"x": 5, "y": 6}, "direction": "South", "hue": 0}"#,
        r#"{"pos": {"x": 5, "z": 6}, "direction": "South", "hue": 0}"#,
        r#"{"pos": {"y": 5, "z": 6}, "direction": "South", "hue": 0}"#,
        r#"{"pos": {"x": 5.5, "y": 6, "z": 1}, "direction": "South", "hue": 0}"#,
        r#"{"pos": {"x": -5, "y": 6, "z": 1}, "direction": "South", "hue": 0}"#,
        r#"{"pos": [5, 6, 1], "direction": "South", "hue": 0}"#,
        r#"{"pos": {"x": 5, "y": 6, "z": 1}, "direction": 3, "hue": 0}"#,
        r#"{"pos": {"x": 5, "y": 6, "z": 1}, "direction": "South", "hue": 0.5}"#,
    ] {
        assert_eq!(Portal::from_json(&json(text)), None, "{}", text);
    }
}

const LEVEL: &str = r#"{
    "cells": [
        [
            {"pos": {"x": 10, "y": 5}, "value": 1, "height": 1},
            {"pos": {"x": 11, "y": 5}, "value": 2, "height": 0.3},
            {"pos": {"x": 5, "y": 5}, "value": 13, "thin": true, "direction": "North", "pushable": false},
            {"pos": {"x": 10, "y": 5}, "value": 3, "height": 0.5}
        ],
        [
            {"pos": {"x": 0, "y": 99}, "value": 2, "thin": true, "direction": "East/West", "pushable": true}
        ],
        []
    ],
    "portals": [
        {
            "first": {"pos": {"x": 5, "y": 5, "z": 0}, "direction": "North", "hue": 120},
            "second": {"pos": {"x": 20, "y": 5, "z": 0}, "direction": "South", "hue": 240}
        },
        {"first": {"pos": {"x": 1, "y": 1, "z": 1}, "direction": "West", "hue": 0}},
        {"second": {"pos": {"x": 2, "y": 2, "z": 2}, "direction": "East", "hue": 0}, "first": null},
        {}
    ],
    "sprites": [
        {"index": 3, "pos": {"x": 4, "y": 5, "z": 0}},
        {"index": 0, "pos": {"x": 7, "y": 8.25, "z": 1}},
        {"index": 1, "pos": {"x": 1.5, "y": 2, "z": 0.5}}
    ]
}"#;

#[test]
fn a_map_is_read_floor_by_floor() {
    let map = WorldMap::new(&json(LEVEL)).unwrap();
    assert_eq!(map.depth(), 3);
    let at = |x: i64, y: i64, z: i64| *map.get(&Vector3f::new(x * ONE, y * ONE, z * ONE));
    // Of two cells for one place the later one stays.
    assert_eq!(at(10, 5, 0), Cell::Wall { value: 3, height: HALF });
    assert_eq!(at(11, 5, 0), Cell::Wall { value: 2, height: 300_000 });
    assert_eq!(at(5, 5, 0), Cell::thin(13, Direction::North, false));
    assert_eq!(at(0, 99, 1), Cell::thin(2, Direction::West, true));
    assert_eq!(at(5, 10, 0), Cell::Empty);
    assert_eq!(at(10, 5, 1), Cell::Empty);
    assert_eq!(at(0, 99, 2), Cell::Empty);
    let mut walls = 0;
    for cell in map.cells.iter() {
        if *cell != Cell::Empty {
            walls += 1;
        }
    }
    assert_eq!(walls, 4);
}

#[test]
fn the_portals_of_a_map_are_read_in_pairs() {
    let map = WorldMap::new(&json(LEVEL)).unwrap();
    let a = Portal::from_parts(5, 5, 0, 120, "North");
    let b = Portal::from_parts(20, 5, 0, 240, "South");
    let c = Portal::from_parts(1, 1, 1, 0, "West");
    let d = Portal::from_parts(2, 2, 2, 0, "East");
    assert_eq!(
        map.portals,
        vec![(Some(a), Some(b)), (Some(c), None), (None, Some(d)), (None, None)]
    );
}

#[test]
fn a_map_needs_no_portals() {
    let map = WorldMap::new(&json(r#"{"cells": [[]]}"#)).unwrap();
    assert_eq!(map.depth(), 1);
    assert!(map.portals.is_empty());
    let map = WorldMap::new(&json(r#"{"cells": [], "portals": 7}"#)).unwrap();
    assert_eq!(map.depth(), 0);
    assert!(map.portals.is_empty());
}

#[test]
fn a_malformed_map_is_not_read() {
    for text in [
        r#"{}"#,
        r#"[]"#,
        r#"{"portals": []}"#,
        r#"{"cells": {}}"#,
        r#"{"cells": [7]}"#,
        r#"{"cells": [[7]]}"#,
        r#"{"cells": [[], [{"value": 1, "height": 1}]]}"#,
        r#"{"cells": [[{"pos": {"x": 1}, "value": 1, "height": 1}]]}"#,
        r#"{"cells": [[{"pos": {"x": 1, "y": 1}, "value": 1}]]}"#,
        r#"{"cells": [[{"pos": {"x": 100, "y": 1}, "value": 1, "height": 1}]]}"#,
        r#"{"cells": [[{"pos": {"x": 1, "y": 100}, "value": 1, "height": 1}]]}"#,
        r#"{"cells": [[{"pos": {"x": 1.5, "y": 1}, "value": 1, "height": 1}]]}"#,
        r#"{"cells": [[{"pos": {"x": 1, "y": 1}, "value": 1, "height": 1}, {}]]}"#,
        r#"{"cells": [[]], "portals": [{"first": {}}]}"#,
        r#"{"cells": [[]], "portals": [{}, {"second": {"pos": 1}}]}"#,
    ] {
        assert!(WorldMap::new(&json(text)).is_none(), "{}", text);
    }
}

#[test]
fn the_sprites_of_a_map_stand_in_the_middle_of_their_cells() {
    let level = json(LEVEL);
    let sprites = Sprite::parse_sprites_from_json(&level["sprites"]).unwrap();
    assert_eq!(
        sprites,
        vec![
            Sprite { pos: Vector3f::new(4_500_000, 5_500_000, 0), value: 2, dist: 0, is_player: false },
            Sprite { pos: Vector3f::new(7_500_000, 8_750_000, ONE), value: 0, dist: 0, is_player: true },
            Sprite { pos: Vector3f::new(2 * ONE, 2_500_000, HALF), value: 0, dist: 0, is_player: false },
        ]
    );
    assert_eq!(Sprite::from_parts(0, Vector3f::zero()).is_player, true);
    assert_eq!(Sprite::from_parts(1, Vector3f::zero()).value, 0);
    assert_eq!(Sprite::from_parts(u32::MAX, Vector3f::zero()).value, u32::MAX - 1);
}

#[test]
fn the_player_starts_at_the_last_sprite_of_kind_zero() {
    let level = json(LEVEL);
    assert_eq!(
        Sprite::get_player_pos_from_json(&level["sprites"]),
        Some(Vector3f::new(7_500_000, 8_750_000, ONE))
    );
    let two = json(
        r#"[{"index": 0, "pos": {"x": 1, "y": 1, "z": 0}}, {"index": 4294967296, "pos": {"x": 2, "y": 3, "z": 0}}]"#,
    );
    assert_eq!(
        Sprite::get_player_pos_from_json(&two),
        Some(Vector3f::new(2_500_000, 3_500_000, 0))
    );
    assert_eq!(Sprite::get_player_pos_from_json(&json("[]")), Some(Vector3f::zero()));
    // The place of a sprite that is not the player is not looked at.
    let other = json(r#"[{"index": 1}]"#);
    assert_eq!(Sprite::get_player_pos_from_json(&other), Some(Vector3f::zero()));
    assert_eq!(Sprite::parse_sprites_from_json(&other), None);
}

#[test]
fn malformed_sprites_are_not_read() {
    for text in [
        r#"{}"#,
        r#"null"#,
        r#"[7]"#,
        r#"[{"pos": {"x": 1, "y": 1, "z": 0}}]"#,
        r#"[{"index": 0}]"#,
        r#"[{"index": 0, "pos": {"x": 1, "y": 1}}]"#,
        r#"[{"index": 0, "pos": {"x": "1", "y": 1, "z": 0}}]"#,
        r#"[{"index": -1, "pos": {"x": 1, "y": 1, "z": 0}}]"#,
        r#"[{"index": 0, "pos": {"x": 1, "y": 1, "z": 0}}, {"index": 0, "pos": {"x": 1e300, "y": 1, "z": 0}}]"#,
    ] {
        assert_eq!(Sprite::get_player_pos_from_json(&json(text)), None, "{}", text);
        assert_eq!(Sprite::parse_sprites_from_json(&json(text)), None, "{}", text);
    }
}
