//! Sprites, and the bookkeeping of what was seen through portals.
use vstd::prelude::*;
use vstd::seq_lib::to_multiset_update;
use crate::fixed::{Fixed, HALF, sum, diff, prod, fx_add, fx_sub, fx_mul};
use crate::json::{items, items_of, member, member_of};
use crate::loader::{read_real, read_unsigned, real_member, unsigned_member};
use crate::vectors::{Vector2f, Vector3f};

verus! {

/// A picture that stands in the world and always faces the camera.
#[derive(Clone, Copy, Debug, PartialEq, Eq, Structural)]
pub struct Sprite {
    /// Where the sprite stands: the middle of its cell.
    pub pos: Vector3f,
    /// The tile of the sprite atlas; not read for the player's own sprite.
    pub value: u32,
    /// The square of the distance to the camera, level with the ground.
    pub dist: Fixed,
    /// Whether this is the picture of the player.
    pub is_player: bool,
}

/// A camera behind a portal: what the player's camera becomes for the part
/// of the screen that is seen through `depth` portals.
#[derive(Clone, Copy, Debug, PartialEq, Eq)]
pub struct Zorigin {
    pub pos: Vector3f,
    pub dir: Vector2f,
    pub plane: Vector2f,
    /// The number of portals between the player and this camera.
    pub depth: usize,
    /// The angle in radians by which the portals have turned the view.
    pub rotation: Fixed,
    /// The heading in degrees of the first portal's face.
    pub portal_degree: u32,
}

/// What one pixel of the screen shows: how far away it is, and through how
/// many portals it is seen.
#[derive(Clone, Copy, Debug, PartialEq, Eq, Structural)]
pub struct Zdist {
    pub dist: Fixed,
    pub portal_depth: usize,
}

/// Whether `first` may be drawn before `second`: it is further away, or as
/// far away and either the player's or not followed by the player's.
/// Sprites are drawn from the furthest to the nearest, and what is drawn
/// later covers what was drawn before.
pub open spec fn draws_before(first: Sprite, second: Sprite) -> bool {
    first.dist > second.dist || (first.dist == second.dist && (first.is_player
        || !second.is_player))
}

/// Whether every sprite of the list may be drawn before all that follow it.
pub open spec fn in_drawing_order(sprites: Seq<Sprite>) -> bool {
    forall|i: int, j: int|
        #![trigger sprites[i], sprites[j]]
        0 <= i < j < sprites.len() ==> draws_before(sprites[i], sprites[j])
}

/// The list `sorted` with `sprite` put in behind the last sprite that may be
/// drawn before it.
pub open spec fn inserted(sorted: Seq<Sprite>, sprite: Sprite) -> Seq<Sprite>
    decreases sorted.len(),
{
    if sorted.len() == 0 {
        seq![sprite]
    } else if draws_before(sorted.last(), sprite) {
        sorted.push(sprite)
    } else {
        inserted(sorted.drop_last(), sprite).push(sorted.last())
    }
}

/// The first `n` of the sprites, put into a list one after another.
pub open spec fn ordered(sprites: Seq<Sprite>, n: int) -> Seq<Sprite>
    decreases n,
{
    if n <= 0 {
        Seq::empty()
    } else {
        inserted(ordered(sprites, n - 1), sprites[n - 1])
    }
}

/// The sprites in the order in which they are drawn: each is put, in its
/// turn, behind the last that may be drawn before it, so that sprites that
/// are equal in this keep their order.
pub open spec fn drawing_order(sprites: Seq<Sprite>) -> Seq<Sprite> {
    ordered(sprites, sprites.len() as int)
}

/// Putting a sprite in makes the list longer by one.
pub proof fn lemma_inserted_len(sorted: Seq<Sprite>, sprite: Sprite)
    ensures
        inserted(sorted, sprite).len() == sorted.len() + 1,
    decreases sorted.len(),
{
    if sorted.len() > 0 && !draws_before(sorted.last(), sprite) {
        lemma_inserted_len(sorted.drop_last(), sprite);
    }
}

/// The list of the first `n` sprites has `n` sprites.
pub proof fn lemma_ordered_len(sprites: Seq<Sprite>, n: int)
    requires
        0 <= n,
    ensures
        ordered(sprites, n).len() == n,
    decreases n,
{
    if n > 0 {
        lemma_ordered_len(sprites, n - 1);
        lemma_inserted_len(ordered(sprites, n - 1), sprites[n - 1]);
    }
}

/// A sprite that may not follow the sprite at `j - 1` is put in somewhere
/// before it, and what follows stays behind.
proof fn lemma_inserted_before(sorted: Seq<Sprite>, sprite: Sprite, j: int)
    requires
        0 < j <= sorted.len(),
        inserted(sorted, sprite) == inserted(sorted.take(j), sprite) + sorted.skip(j),
        !draws_before(sorted[j - 1], sprite),
    ensures
        inserted(sorted, sprite) == inserted(sorted.take(j - 1), sprite) + sorted.skip(j - 1),
{
    let head = sorted.take(j);
    assert(head.last() == sorted[j - 1]);
    assert(head.drop_last() =~= sorted.take(j - 1));
    lemma_inserted_len(sorted.take(j - 1), sprite);
    assert(inserted(head, sprite) == inserted(sorted.take(j - 1), sprite).push(sorted[j - 1]));
    assert(inserted(sorted.take(j - 1), sprite).push(sorted[j - 1]) + sorted.skip(j) =~= inserted(
        sorted.take(j - 1),
        sprite,
    ) + sorted.skip(j - 1));
}

/// The square of the distance between two points, level with the ground.
pub open spec fn level_distance_squared(a: Vector3f, b: Vector3f) -> Fixed {
    sum(prod(diff(a.x, b.x), diff(a.x, b.x)), prod(diff(a.y, b.y), diff(a.y, b.y)))
}

/// The point that the member `pos` of `json` gives by its members `x`, `y`
/// and `z`, moved to the middle of its cell, or nothing where one of them
/// is missing or no real.
pub open spec fn point_read(json: serde_json::Value) -> Option<Vector3f> {
    match member_of(json, "pos"@) {
        Some(pos) => match (real_member(pos, "x"@), real_member(pos, "y"@), real_member(pos, "z"@)) {
            (Some(x), Some(y), Some(z)) => Some(Vector3f { x: sum(x, HALF), y: sum(y, HALF), z }),
            _ => None,
        },
        None => None,
    }
}

/// The kind of the sprite that `json` describes: its member `index`, modulo
/// 2 to the power of 32. The kind 0 is the player.
pub open spec fn kind_read(json: serde_json::Value) -> Option<u32> {
    match unsigned_member(json, "index"@) {
        Some(index) => Some((index % 0x1_0000_0000) as u32),
        None => None,
    }
}

/// The sprite that `json` describes, or nothing where it lacks its kind or
/// its place.
pub open spec fn sprite_read(json: serde_json::Value) -> Option<Sprite> {
    match (kind_read(json), point_read(json)) {
        (Some(kind), Some(pos)) => Some(Sprite::of_parts(kind, pos)),
        _ => None,
    }
}

/// The first `n` sprites of `list`, or nothing where one of them is
/// malformed.
pub open spec fn sprites_read(list: Seq<serde_json::Value>, n: int) -> Option<Seq<Sprite>>
    decreases n,
{
    if n <= 0 {
        Some(Seq::empty())
    } else {
        match (sprites_read(list, n - 1), sprite_read(list[n - 1])) {
            (Some(before), Some(sprite)) => Some(before.push(sprite)),
            _ => None,
        }
    }
}

/// Where the player starts by the first `n` sprites of `list`: at the place
/// of the last sprite of kind 0, and at the origin where there is none.
/// Nothing where one of the sprites lacks its kind, or one of kind 0 its
/// place.
pub open spec fn start_read(list: Seq<serde_json::Value>, n: int) -> Option<Vector3f>
    decreases n,
{
    if n <= 0 {
        Some(Vector3f { x: 0, y: 0, z: 0 })
    } else {
        match (start_read(list, n - 1), kind_read(list[n - 1])) {
            (Some(before), Some(kind)) => if kind != 0 {
                Some(before)
            } else {
                point_read(list[n - 1])
            },
            _ => None,
        }
    }
}

/// A list with a malformed sprite cannot be read, however many follow.
pub proof fn lemma_sprites_stay_unread(list: Seq<serde_json::Value>, n: int, m: int)
    requires
        sprites_read(list, n) is None,
        n <= m,
    ensures
        sprites_read(list, m) is None,
    decreases m - n,
{
    if n < m {
        lemma_sprites_stay_unread(list, n, m - 1);
    }
}

/// A start that cannot be read stays so, however many sprites follow.
pub proof fn lemma_start_stays_unread(list: Seq<serde_json::Value>, n: int, m: int)
    requires
        start_read(list, n) is None,
        n <= m,
    ensures
        start_read(list, m) is None,
    decreases m - n,
{
    if n < m {
        lemma_start_stays_unread(list, n, m - 1);
    }
}

fn read_point(json: &serde_json::Value) -> (r: Option<Vector3f>)
    ensures
        r == point_read(*json),
{
    match member(json, "pos") {
        Some(pos) => match (read_real(pos, "x"), read_real(pos, "y"), read_real(pos, "z")) {
            (Some(x), Some(y), Some(z)) => Some(Vector3f::new(fx_add(x, HALF), fx_add(y, HALF), z)),
            _ => None,
        },
        None => None,
    }
}

fn read_kind(json: &serde_json::Value) -> (r: Option<u32>)
    ensures
        r == kind_read(*json),
{
    match read_unsigned(json, "index") {
        Some(index) => Some((index % 0x1_0000_0000) as u32),
        None => None,
    }
}

impl Sprite {
    /// The sprite of the kind `kind` at `pos`: the player's for the kind 0,
    /// else the one painted with the tile before its kind.
    pub open spec fn of_parts(kind: u32, pos: Vector3f) -> Sprite {
        Sprite {
            pos,
            value: if kind == 0 {
                0
            } else {
                (kind - 1) as u32
            },
            dist: 0,
            is_player: kind == 0,
        }
    }

    /// The sprite of the kind `kind` at `pos`.
    pub fn from_parts(kind: u32, pos: Vector3f) -> (r: Sprite)
        ensures
            r == Sprite::of_parts(kind, pos),
    {
        Sprite { pos, value: if kind == 0 { 0 } else { kind - 1 }, dist: 0, is_player: kind == 0 }
    }

    /// Where the player starts, by the array of sprites of a map file, or
    /// nothing where `json` is no array or a sprite is malformed.
    pub fn get_player_pos_from_json(json: &serde_json::Value) -> (r: Option<Vector3f>)
        ensures
            r == (match items_of(*json) {
                Some(list) => start_read(list, list.len() as int),
                None => None,
            }),
    {
        let list: &Vec<serde_json::Value> = match items(json) {
            Some(list) => list,
            None => {
                return None;
            },
        };
        let mut pos: Vector3f = Vector3f::zero();
        let mut i: usize = 0;
        while i < list.len()
            invariant
                i <= list@.len(),
                items_of(*json) == Some(list@),
                Some(pos) == start_read(list@, i as int),
            decreases list@.len() - i,
        {
            let found: Option<Vector3f> = match read_kind(&list[i]) {
                Some(kind) => if kind != 0 {
                    Some(pos)
                } else {
                    read_point(&list[i])
                },
                None => None,
            };
            match found {
                Some(p) => {
                    pos = p;
                },
                None => {
                    proof {
                        assert(start_read(list@, i + 1) is None);
                        lemma_start_stays_unread(list@, i + 1, list@.len() as int);
                    }
                    return None;
                },
            }
            i += 1;
        }
        Some(pos)
    }

    /// The sprites of a map file, by its array of sprites, or nothing
    /// where `json` is no array or a sprite is malformed.
    pub fn parse_sprites_from_json(json: &serde_json::Value) -> (r: Option<Vec<Sprite>>)
        ensures
            (match r {
                Some(sprites) => Some(sprites@),
                None => None,
            }) == (match items_of(*json) {
                Some(list) => sprites_read(list, list.len() as int),
                None => None,
            }),
    {
        let list: &Vec<serde_json::Value> = match items(json) {
            Some(list) => list,
            None => {
                return None;
            },
        };
        let mut sprites: Vec<Sprite> = Vec::new();
        assert(sprites@ =~= Seq::empty());
        let mut i: usize = 0;
        while i < list.len()
            invariant
                i <= list@.len(),
                items_of(*json) == Some(list@),
                Some(sprites@) == sprites_read(list@, i as int),
            decreases list@.len() - i,
        {
            match (read_kind(&list[i]), read_point(&list[i])) {
                (Some(kind), Some(pos)) => {
                    sprites.push(Sprite::from_parts(kind, pos));
                },
                _ => {
                    proof {
                        assert(sprites_read(list@, i + 1) is None);
                        lemma_sprites_stay_unread(list@, i + 1, list@.len() as int);
                    }
                    return None;
                },
            }
            i += 1;
        }
        Some(sprites)
    }

    /// The sprite as the camera at `camera` sees it: the player's sprite is
    /// where the player is, and every sprite knows its distance.
    pub open spec fn seen_from(self, camera: Vector3f, player: Vector3f) -> Sprite {
        let pos = if self.is_player {
            player
        } else {
            self.pos
        };
        Sprite { pos, dist: level_distance_squared(camera, pos), ..self }
    }

    /// Moves the player's sprite to `player` and measures the distance to
    /// `camera`.
    pub fn look_from(&mut self, camera: &Vector3f, player: &Vector3f)
        ensures
            *final(self) == old(self).seen_from(*camera, *player),
    {
        if self.is_player {
            self.pos = *player;
        }
        let dx: Fixed = fx_sub(camera.x, self.pos.x);
        let dy: Fixed = fx_sub(camera.y, self.pos.y);
        self.dist = fx_add(fx_mul(dx, dx), fx_mul(dy, dy));
    }

    fn goes_before(&self, other: &Sprite) -> (r: bool)
        ensures
            r == draws_before(*self, *other),
    {
        self.dist > other.dist || (self.dist == other.dist && (self.is_player
            || !other.is_player))
    }
}

/// Every sprite as the camera at `camera` sees it.
pub open spec fn all_seen_from(sprites: Seq<Sprite>, camera: Vector3f, player: Vector3f) -> Seq<
    Sprite,
> {
    Seq::new(sprites.len(), |i: int| sprites[i].seen_from(camera, player))
}

/// Lets every sprite measure its distance to `camera`, the player's sprite
/// from where the player is.
pub fn measure_sprites(sprites: &mut Vec<Sprite>, camera: &Vector3f, player: &Vector3f)
    ensures
        final(sprites)@ == all_seen_from(old(sprites)@, *camera, *player),
{
    let n: usize = sprites.len();
    let mut i: usize = 0;
    while i < n
        invariant
            n == sprites@.len(),
            n == old(sprites)@.len(),
            i <= n,
            forall|k: int| 0 <= k < i ==> sprites@[k] == old(sprites)@[k].seen_from(*camera, *player),
            forall|k: int| i <= k < n ==> sprites@[k] == old(sprites)@[k],
        decreases n - i,
    {
        let mut sprite: Sprite = sprites[i];
        sprite.look_from(camera, player);
        sprites.set(i, sprite);
        i += 1;
    }
    assert(sprites@ =~= all_seen_from(old(sprites)@, *camera, *player));
}

/// Puts the sprites into drawing order: from the furthest to the nearest,
/// and among sprites that are equally far the player's first, so that it never
/// covers another. No sprite is lost or made.
pub fn sort_sprites(sprites: &mut Vec<Sprite>)
    ensures
        final(sprites)@ == drawing_order(old(sprites)@),
        in_drawing_order(final(sprites)@),
        final(sprites)@.to_multiset() == old(sprites)@.to_multiset(),
        final(sprites)@.len() == old(sprites)@.len(),
{
    let n: usize = sprites.len();
    if n == 0 {
        assert(sprites@ =~= drawing_order(old(sprites)@));
        return ;
    }
    proof {
        assert(ordered(old(sprites)@, 0) =~= Seq::empty());
        assert(ordered(old(sprites)@, 1) =~= seq![old(sprites)@[0]]);
        assert(sprites@.take(1) =~= seq![old(sprites)@[0]]);
    }
    let mut i: usize = 1;
    while i < n
        invariant
            n == sprites@.len(),
            n == old(sprites)@.len(),
            sprites@.to_multiset() == old(sprites)@.to_multiset(),
            1 <= i <= n,
            sprites@.take(i as int) == ordered(old(sprites)@, i as int),
            sprites@.skip(i as int) == old(sprites)@.skip(i as int),
            forall|a: int, b: int|
                #![trigger sprites@[a], sprites@[b]]
                0 <= a < b < i && b < n ==> draws_before(sprites@[a], sprites@[b]),
        decreases n - i,
    {
        let ghost sorted = ordered(old(sprites)@, i as int);
        let ghost sprite = old(sprites)@[i as int];
        proof {
            lemma_ordered_len(old(sprites)@, i as int);
            assert(sprites@[i as int] == sprites@.skip(i as int)[0]);
            assert(sorted.take(i as int) =~= sorted);
            assert(sorted.skip(i as int) =~= Seq::empty());
            assert(inserted(sorted, sprite) =~= inserted(sorted.take(i as int), sprite) + sorted.skip(
                i as int,
            ));
            assert(sprites@.take(i + 1) =~= sorted.take(i as int).push(sprite) + sorted.skip(i as int))
                by {
                assert forall|k: int| 0 <= k < i implies #[trigger] sprites@.take(i + 1)[k]
                    == sorted[k] by {
                    assert(sprites@.take(i as int)[k] == sorted[k]);
                }
            }
            assert(sprites@.skip(i + 1) =~= old(sprites)@.skip(i + 1)) by {
                assert forall|k: int| 0 <= k < n - i - 1 implies #[trigger] sprites@.skip(i + 1)[k]
                    == old(sprites)@.skip(i + 1)[k] by {
                    assert(sprites@.skip(i as int)[k + 1] == old(sprites)@.skip(i as int)[k + 1]);
                }
            }
        }
        let mut j: usize = i;
        while j > 0 && !sprites[j - 1].goes_before(&sprites[j])
            invariant
                n == sprites@.len(),
                n == old(sprites)@.len(),
                sprites@.to_multiset() == old(sprites)@.to_multiset(),
                j <= i < n,
                sorted.len() == i,
                sprites@.take(i + 1) == sorted.take(j as int).push(sprite) + sorted.skip(j as int),
                sprites@.skip(i + 1) == old(sprites)@.skip(i + 1),
                inserted(sorted, sprite) == inserted(sorted.take(j as int), sprite) + sorted.skip(
                    j as int,
                ),
                forall|a: int, b: int|
                    #![trigger sprites@[a], sprites@[b]]
                    0 <= a < b <= i && a != j && b != j ==> draws_before(sprites@[a], sprites@[b]),
                forall|b: int|
                    #![trigger sprites@[b]]
                    j < b <= i ==> draws_before(sprites@[j as int], sprites@[b]),
            decreases j,
        {
            let ghost before = sprites@;
            let lower: Sprite = sprites[j - 1];
            let upper: Sprite = sprites[j];
            sprites.set(j - 1, upper);
            sprites.set(j, lower);
            proof {
                broadcast use vstd::multiset::group_multiset_axioms;

                let mid = before.update(j - 1, upper);
                to_multiset_update(before, j - 1, upper);
                to_multiset_update(mid, j as int, lower);
                assert(before[j - 1] == lower && before.contains(lower));
                assert(before[j as int] == upper && before.contains(upper));
                vstd::seq_lib::to_multiset_contains(before, lower);
                vstd::seq_lib::to_multiset_contains(before, upper);
                assert(sprites@ == mid.update(j as int, lower));
                assert(mid[j as int] == upper);
                let m = before.to_multiset();
                assert(sprites@.to_multiset() == m.insert(upper).remove(lower).insert(lower).remove(
                    upper,
                ));
                assert forall|v: Sprite|
                    m.insert(upper).remove(lower).insert(lower).remove(upper).count(v) == m.count(
                        v,
                    ) by {
                }
                assert(sprites@.to_multiset() =~= m);

                let row = before.take(i + 1);
                assert(row[j - 1] == sorted[j - 1] && row[j as int] == sprite);
                assert(lower == sorted[j - 1] && upper == sprite) by {
                    assert(before[j - 1] == row[j - 1] && before[j as int] == row[j as int]);
                }
                lemma_inserted_before(sorted, sprite, j as int);
                assert(sprites@.take(i + 1) =~= sorted.take(j - 1).push(sprite) + sorted.skip(j - 1))
                    by {
                    assert forall|k: int| 0 <= k <= i implies #[trigger] sprites@.take(i + 1)[k] == (
                    sorted.take(j - 1).push(sprite) + sorted.skip(j - 1))[k] by {
                        if k != j - 1 && k != j {
                            assert(sprites@[k] == before[k]);
                            assert(before[k] == row[k]);
                        }
                    }
                }
                assert(sprites@.skip(i + 1) =~= before.skip(i + 1));
            }
            j -= 1;
        }
        proof {
            let row = sprites@.take(i + 1);
            if j > 0 {
                assert(row[j - 1] == sorted[j - 1] && row[j as int] == sprite);
                assert(sprites@[j - 1] == row[j - 1] && sprites@[j as int] == row[j as int]);
                assert(sorted.take(j as int).last() == sorted[j - 1]);
            } else {
                assert(sorted.take(0) =~= Seq::empty());
            }
            assert(inserted(sorted.take(j as int), sprite) =~= sorted.take(j as int).push(sprite));
            assert(row == inserted(sorted, sprite));
        }
        proof {
            assert forall|a: int, b: int|
                #![trigger sprites@[a], sprites@[b]]
                0 <= a < b <= i implies draws_before(sprites@[a], sprites@[b]) by {
                if b == j && a < j - 1 {
                    assert(draws_before(sprites@[a], sprites@[j - 1]));
                    assert(draws_before(sprites@[j - 1], sprites@[j as int]));
                }
            }
        }
        i += 1;
    }
}

/// In drawing order the player's sprite never follows another sprite that
/// is equally far from the camera: it is never drawn over one.
pub proof fn lemma_player_never_in_front(sprites: Seq<Sprite>, i: int, j: int)
    requires
        in_drawing_order(sprites),
        0 <= i < j < sprites.len(),
        sprites[i].dist == sprites[j].dist,
        sprites[j].is_player,
    ensures
        sprites[i].is_player,
{
}

} // verus!
