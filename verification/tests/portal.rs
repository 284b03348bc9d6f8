use raycaster::color::HSLColor;
use raycaster::direction::Direction;
use raycaster::fixed::{ONE, QUARTER_TURN};
use raycaster::portal::Portal;
use raycaster::vectors::Vector3f;

const SIDES: [Direction; 4] =
    [Direction::North, Direction::West, Direction::South, Direction::East];

fn portal(x: i64, y: i64, dir: Direction) -> Portal {
    Portal::new(Vector3f::new(x * ONE, y * ONE, 0), dir, 0)
}

#[test]
fn a_portal_keeps_its_hue() {
    let p = Portal::new(Vector3f::new(ONE, 2 * ONE, 0), Direction::West, 200 * ONE);
    assert_eq!(p.hsl, HSLColor { h: 200 * ONE, s: 0, l: 0 });
    assert_eq!(p.dir, Direction::West);
    assert_eq!(p.pos, Vector3f::new(ONE, 2 * ONE, 0));
}

#[test]
fn the_turn_depends_on_the_two_faces() {
    let north = portal(0, 0, Direction::North);
    let west = portal(0, 0, Direction::West);
    let south = portal(0, 0, Direction::South);
    let east = portal(0, 0, Direction::East);
    // Faces that look at each other: no turn, or a whole one.
    assert_eq!(south.link_dir(&north), 0);
    assert_eq!(north.link_dir(&south), -4 * QUARTER_TURN);
    assert_eq!(east.link_dir(&west), 0);
    assert_eq!(west.link_dir(&east), -4 * QUARTER_TURN);
    // Faces that look the same way: half a turn.
    assert_eq!(north.link_dir(&north), -2 * QUARTER_TURN);
    assert_eq!(east.link_dir(&east), -2 * QUARTER_TURN);
    // Neighbouring faces: a quarter turn to one hand or the other.
    assert_eq!(west.link_dir(&north), -QUARTER_TURN);
    assert_eq!(north.link_dir(&west), -3 * QUARTER_TURN);
    assert_eq!(east.link_dir(&north), QUARTER_TURN);
    assert_eq!(north.link_dir(&east), -5 * QUARTER_TURN);
}

/// The table of link_x, as the four forms `rhs.x + 1 - p.x`, `rhs.y + 1 - p.y`,
/// `p.x - rhs.x` and `p.y - rhs.y`, numbered 0 to 3, with the shift of the row.
const LINK_X: [(i64, [usize; 4]); 4] =
    [(0, [0, 1, 2, 3]), (1, [3, 0, 1, 2]), (0, [2, 3, 0, 1]), (-1, [1, 2, 3, 0])];

const LINK_Y: [(i64, [usize; 4]); 4] =
    [(-1, [1, 2, 3, 0]), (0, [0, 1, 2, 3]), (1, [3, 0, 1, 2]), (0, [2, 3, 0, 1])];

#[test]
fn the_link_follows_its_table() {
    let p = Vector3f::new(7_250_000, 3_600_000, 0);
    for (i, own) in SIDES.iter().enumerate() {
        for (j, other) in SIDES.iter().enumerate() {
            let this = portal(40, 50, *own);
            let rhs = portal(7, 3, *other);
            let forms = [
                rhs.pos.x + ONE - p.x,
                rhs.pos.y + ONE - p.y,
                p.x - rhs.pos.x,
                p.y - rhs.pos.y,
            ];
            let (shift_x, row_x) = LINK_X[i];
            let (shift_y, row_y) = LINK_Y[i];
            assert_eq!(
                this.link_x(&rhs, &p),
                this.pos.x + shift_x * ONE + forms[row_x[j]],
                "x, {:?} from {:?}",
                own,
                other
            );
            assert_eq!(
                this.link_y(&rhs, &p),
                this.pos.y + shift_y * ONE + forms[row_y[j]],
                "y, {:?} from {:?}",
                own,
                other
            );
        }
    }
}

#[test]
fn some_entries_of_the_table() {
    let p = Vector3f::new(7_250_000, 3_600_000, 0);
    let rhs_n = portal(7, 3, Direction::North);
    let rhs_e = portal(7, 3, Direction::East);
    let north = portal(40, 50, Direction::North);
    let east = portal(40, 50, Direction::East);
    // North from north: rhs.x + 1 - p.x and -1 + rhs.y + 1 - p.y.
    assert_eq!(north.link_x(&rhs_n, &p), 40_750_000);
    assert_eq!(north.link_y(&rhs_n, &p), 49_400_000);
    // North from east: p.y - rhs.y and -1 + rhs.x + 1 - p.x.
    assert_eq!(north.link_x(&rhs_e, &p), 40_600_000);
    assert_eq!(north.link_y(&rhs_e, &p), 49_750_000);
    // East from north: -1 + rhs.y + 1 - p.y and p.x - rhs.x.
    assert_eq!(east.link_x(&rhs_n, &p), 39_400_000);
    assert_eq!(east.link_y(&rhs_n, &p), 50_250_000);
}

#[test]
fn a_portal_on_no_side_leads_to_its_own_cell() {
    let p = Vector3f::new(7_250_000, 3_600_000, 0);
    let rhs = portal(7, 3, Direction::North);
    for dir in [Direction::Unset, Direction::Up, Direction::Down] {
        let this = portal(40, 50, dir);
        assert_eq!(this.link_x(&rhs, &p), 40 * ONE);
        assert_eq!(this.link_y(&rhs, &p), 50 * ONE);
        let side = portal(40, 50, Direction::West);
        let odd = portal(7, 3, dir);
        assert_eq!(side.link_x(&odd, &p), 41 * ONE);
        assert_eq!(side.link_y(&odd, &p), 50 * ONE);
    }
}

#[test]
fn there_and_back_is_where_one_started() {
    let points = [
        Vector3f::new(7_250_000, 3_600_000, 0),
        Vector3f::new(-1_000_001, 99_999_999, 0),
        Vector3f::new(0, 0, 0),
        Vector3f::new(1_000_000_000_000_000_000, -1_000_000_000_000_000_000, 0),
    ];
    for own in SIDES {
        for other in SIDES {
            let a = portal(7, 3, own);
            let b = portal(40, 50, other);
            for p in points {
                let there = Vector3f::new(b.link_x(&a, &p), b.link_y(&a, &p), 0);
                assert_eq!(a.link_x(&b, &there), p.x);
                assert_eq!(a.link_y(&b, &there), p.y);
                assert_eq!(b.link_dir(&a) + a.link_dir(&b), -4 * QUARTER_TURN);
            }
        }
    }
}
