//! What holds of doors and panels over any run of updates.
use vstd::prelude::*;
use crate::cell::door::{Door, DoorState, SLIDE_TIME, OPEN_TIME};
use crate::cell::thinwall::{ThinWall, PUSH_TIME};
use crate::cell::{Cell, Interaction, Thin, ThinObject};
use crate::fixed::{Fixed, ONE, BOUND, sub_spec, div_spec};

verus! {

/// The time that the first `k` of the updates `dts` take together.
pub open spec fn elapsed(dts: Seq<Fixed>, k: int) -> int
    decreases k,
{
    if k <= 0 {
        0
    } else {
        elapsed(dts, k - 1) + dts[k - 1]
    }
}

/// Whether no update of `dts` runs backward, and the time of all of them
/// together can still be counted.
pub open spec fn forward(dts: Seq<Fixed>) -> bool {
    &&& forall|i: int| 0 <= i < dts.len() ==> #[trigger] dts[i] >= 0
    &&& elapsed(dts, dts.len() as int) <= BOUND
}

/// The door after the first `k` of the updates `dts`.
pub open spec fn door_after(door: Door, dts: Seq<Fixed>, k: int) -> Door
    decreases k,
{
    if k <= 0 {
        door
    } else {
        door_after(door, dts, k - 1).after_update(dts[k - 1] as int)
    }
}

/// The cell after the first `k` of the updates `dts`.
pub open spec fn cell_after(cell: Cell, dts: Seq<Fixed>, k: int) -> Cell
    decreases k,
{
    if k <= 0 {
        cell
    } else {
        cell_after(cell, dts, k - 1).updated(dts[k - 1] as int)
    }
}

/// The slide of a door that has been opening for the time `t`: it falls from
/// 1 to 0 in a straight line over [`SLIDE_TIME`].
pub open spec fn opening_slide(t: int) -> int {
    sub_spec(ONE as int, div_spec(t, SLIDE_TIME as int))
}

/// The slide of a door that has been closing for the time `t`: it rises from
/// 0 to 1 in a straight line over [`SLIDE_TIME`].
pub open spec fn closing_slide(t: int) -> int {
    div_spec(t, SLIDE_TIME as int)
}

/// Time only adds up.
pub proof fn lemma_elapsed_grows(dts: Seq<Fixed>, j: int, k: int)
    requires
        forall|i: int| 0 <= i < dts.len() ==> #[trigger] dts[i] >= 0,
        0 <= j <= k <= dts.len(),
    ensures
        0 <= elapsed(dts, j) <= elapsed(dts, k),
    decreases k,
{
    if j < k {
        lemma_elapsed_grows(dts, j, k - 1);
    } else if k > 0 {
        lemma_elapsed_grows(dts, j - 1, k - 1);
    }
}

/// A trigger starts a closed door on its way: it is opening, has counted no
/// time yet, and still covers all of its doorway. A door on its way is not
/// disturbed.
pub proof fn lemma_trigger_starts_door(door: Door)
    requires
        door.wf(),
    ensures
        door.state == DoorState::Closed ==> door.after_trigger().state == DoorState::Opening
            && door.after_trigger().delta == 0 && door.after_trigger().slide == ONE,
        door.state != DoorState::Closed ==> door.after_trigger() == door,
        door.after_trigger().wf(),
{
}

/// The longer a door has been moving, the further it has come.
pub proof fn lemma_slide_follows_time(s: int, t: int)
    requires
        0 <= s <= t <= BOUND,
    ensures
        opening_slide(s) >= opening_slide(t),
        closing_slide(s) <= closing_slide(t),
        closing_slide(s) >= 0,
{
    assert(0 <= (s * 1_000_000) / 1_500_000);
}

/// While a door opens, its slide falls in a straight line with the time.
///
/// Take a door that has just started to open, and any updates that do not
/// run backward. After the first `k` of them, as long as the time before
/// the last of these has not taken the slide below 0, the door is still
/// opening, has counted all the time, and its slide is that of the time
/// before the last update: it lags by one update.
pub proof fn lemma_door_opens_linearly(door: Door, dts: Seq<Fixed>, k: int)
    requires
        door.wf(),
        door.state == DoorState::Opening,
        door.delta == 0,
        forward(dts),
        1 <= k <= dts.len(),
        opening_slide(elapsed(dts, k - 1)) >= 0,
    ensures
        door_after(door, dts, k).state == DoorState::Opening,
        door_after(door, dts, k).delta == elapsed(dts, k),
        door_after(door, dts, k).slide == opening_slide(elapsed(dts, k - 1)),
        door_after(door, dts, k).wf(),
    decreases k,
{
    lemma_elapsed_grows(dts, k - 1, k);
    lemma_elapsed_grows(dts, k, dts.len() as int);
    if k > 1 {
        lemma_elapsed_grows(dts, k - 2, k - 1);
        lemma_slide_follows_time(elapsed(dts, k - 2), elapsed(dts, k - 1));
        lemma_door_opens_linearly(door, dts, k - 1);
    }
}

/// A door that opens is open, with a slide of 0, after the first update
/// that finds the time spent to have taken the slide below 0.
pub proof fn lemma_door_ends_open(door: Door, dts: Seq<Fixed>, k: int)
    requires
        door.wf(),
        door.state == DoorState::Opening,
        door.delta == 0,
        forward(dts),
        1 <= k < dts.len(),
        opening_slide(elapsed(dts, k - 1)) >= 0,
        opening_slide(elapsed(dts, k)) < 0,
    ensures
        door_after(door, dts, k + 1).state == DoorState::Opened,
        door_after(door, dts, k + 1).delta == 0,
        door_after(door, dts, k + 1).slide == 0,
        door_after(door, dts, k + 1).wf(),
{
    lemma_door_opens_linearly(door, dts, k);
}

/// An open door stays open, its slide at 0, until it has counted
/// [`OPEN_TIME`], and starts to close with the update that completes it.
pub proof fn lemma_door_stays_open(door: Door, dts: Seq<Fixed>, k: int)
    requires
        door.wf(),
        door.state == DoorState::Opened,
        door.delta == 0,
        forward(dts),
        0 <= k <= dts.len(),
        k > 0 ==> elapsed(dts, k - 1) < OPEN_TIME,
    ensures
        door_after(door, dts, k).slide == 0,
        door_after(door, dts, k).wf(),
        elapsed(dts, k) < OPEN_TIME ==> door_after(door, dts, k).state == DoorState::Opened
            && door_after(door, dts, k).delta == elapsed(dts, k),
        elapsed(dts, k) >= OPEN_TIME ==> door_after(door, dts, k).state == DoorState::Closing
            && door_after(door, dts, k).delta == 0,
    decreases k,
{
    if k > 0 {
        lemma_elapsed_grows(dts, k - 1, k);
        lemma_elapsed_grows(dts, k, dts.len() as int);
        if k > 1 {
            lemma_elapsed_grows(dts, k - 2, k - 1);
        }
        lemma_door_stays_open(door, dts, k - 1);
    }
}

/// While a door closes, its slide rises in a straight line with the time,
/// one update behind, as [`lemma_door_opens_linearly`] says of a door that
/// opens.
pub proof fn lemma_door_closes_linearly(door: Door, dts: Seq<Fixed>, k: int)
    requires
        door.wf(),
        door.state == DoorState::Closing,
        door.delta == 0,
        forward(dts),
        1 <= k <= dts.len(),
        closing_slide(elapsed(dts, k - 1)) <= ONE,
    ensures
        door_after(door, dts, k).state == DoorState::Closing,
        door_after(door, dts, k).delta == elapsed(dts, k),
        door_after(door, dts, k).slide == closing_slide(elapsed(dts, k - 1)),
        door_after(door, dts, k).wf(),
    decreases k,
{
    lemma_elapsed_grows(dts, k - 1, k);
    lemma_elapsed_grows(dts, k, dts.len() as int);
    if k > 1 {
        lemma_elapsed_grows(dts, k - 2, k - 1);
        lemma_slide_follows_time(elapsed(dts, k - 2), elapsed(dts, k - 1));
        lemma_door_closes_linearly(door, dts, k - 1);
    }
}

/// A door that closes is closed, with a slide of 1, after the first update
/// that finds the time spent to have taken the slide above 1.
pub proof fn lemma_door_ends_closed(door: Door, dts: Seq<Fixed>, k: int)
    requires
        door.wf(),
        door.state == DoorState::Closing,
        door.delta == 0,
        forward(dts),
        1 <= k < dts.len(),
        closing_slide(elapsed(dts, k - 1)) <= ONE,
        closing_slide(elapsed(dts, k)) > ONE,
    ensures
        door_after(door, dts, k + 1).state == DoorState::Closed,
        door_after(door, dts, k + 1).slide == ONE,
        door_after(door, dts, k + 1).wf(),
{
    lemma_door_closes_linearly(door, dts, k);
}

/// A closed door stays closed, its slide at 1, whatever time passes.
pub proof fn lemma_closed_door_rests(door: Door, dts: Seq<Fixed>, k: int)
    requires
        door.wf(),
        door.state == DoorState::Closed,
        0 <= k <= dts.len(),
    ensures
        door_after(door, dts, k) == door,
        door_after(door, dts, k).slide == ONE,
    decreases k,
{
    if k > 0 {
        lemma_closed_door_rests(door, dts, k - 1);
    }
}

/// Updates can be taken in two runs: the door after the first `a + b`
/// updates is the door after the first `a`, taken through the `b` updates
/// that follow.
pub proof fn lemma_updates_in_two_runs(door: Door, dts: Seq<Fixed>, a: int, b: int)
    requires
        0 <= a,
        0 <= b,
        a + b <= dts.len(),
    ensures
        door_after(door, dts, a + b) == door_after(door_after(door, dts, a), dts.skip(a), b),
    decreases b,
{
    if b > 0 {
        lemma_updates_in_two_runs(door, dts, a, b - 1);
    }
}

/// What is left of a run of updates that does not run backward does not
/// run backward either.
pub proof fn lemma_rest_runs_forward(dts: Seq<Fixed>, a: int)
    requires
        forward(dts),
        0 <= a <= dts.len(),
    ensures
        forward(dts.skip(a)),
        elapsed(dts, dts.len() as int) == elapsed(dts, a) + elapsed(
            dts.skip(a),
            dts.len() - a,
        ),
{
    lemma_elapsed_splits(dts, a, dts.len() - a);
    lemma_elapsed_grows(dts, 0, a);
}

/// The time of `a + b` updates is the time of the first `a` and that of
/// the `b` that follow.
pub proof fn lemma_elapsed_splits(dts: Seq<Fixed>, a: int, b: int)
    requires
        0 <= a,
        0 <= b,
        a + b <= dts.len(),
    ensures
        elapsed(dts, a + b) == elapsed(dts, a) + elapsed(dts.skip(a), b),
    decreases b,
{
    if b > 0 {
        lemma_elapsed_splits(dts, a, b - 1);
    }
}

/// A door goes through its whole cycle and rests.
///
/// Take a closed door, set it off, and let it have updates that do not run
/// backward. Let the first `a` of them keep the slide of the opening door at
/// 0 or above and the next take it below; let the `b`-th after that be the
/// first to complete the time that the door stays open; and let the first
/// `c` after that keep the slide of the closing door at 1 or below and the
/// next take it above. Then the door opens in a straight line during the
/// first `a` updates, is open with a slide of 0 through the next `b`, closes
/// in a straight line during the `c` after that, and after one more, and
/// after any number more, is closed with a slide of 1.
pub proof fn lemma_door_cycle(door: Door, dts: Seq<Fixed>, a: int, b: int, c: int, k: int)
    requires
        door.wf(),
        door.state == DoorState::Closed,
        forward(dts),
        1 <= a,
        1 <= b,
        1 <= c,
        a + 1 + b + c + 1 <= k <= dts.len(),
        opening_slide(elapsed(dts, a - 1)) >= 0,
        opening_slide(elapsed(dts, a)) < 0,
        elapsed(dts.skip(a + 1), b - 1) < OPEN_TIME,
        elapsed(dts.skip(a + 1), b) >= OPEN_TIME,
        closing_slide(elapsed(dts.skip(a + 1 + b), c - 1)) <= ONE,
        closing_slide(elapsed(dts.skip(a + 1 + b), c)) > ONE,
    ensures
        door_after(door.after_trigger(), dts, a).state == DoorState::Opening,
        door_after(door.after_trigger(), dts, a).slide == opening_slide(elapsed(dts, a - 1)),
        door_after(door.after_trigger(), dts, a + 1).state == DoorState::Opened,
        door_after(door.after_trigger(), dts, a + 1).slide == 0,
        door_after(door.after_trigger(), dts, a + 1 + b).state == DoorState::Closing,
        door_after(door.after_trigger(), dts, a + 1 + b).slide == 0,
        door_after(door.after_trigger(), dts, a + 1 + b + c).state == DoorState::Closing,
        door_after(door.after_trigger(), dts, a + 1 + b + c).slide == closing_slide(
            elapsed(dts.skip(a + 1 + b), c - 1),
        ),
        door_after(door.after_trigger(), dts, k).state == DoorState::Closed,
        door_after(door.after_trigger(), dts, k).slide == ONE,
{
    let start = door.after_trigger();
    lemma_trigger_starts_door(door);
    lemma_door_opens_linearly(start, dts, a);
    lemma_door_ends_open(start, dts, a);

    let open = door_after(start, dts, a + 1);
    let rest = dts.skip(a + 1);
    lemma_rest_runs_forward(dts, a + 1);
    lemma_door_stays_open(open, rest, b);
    lemma_updates_in_two_runs(start, dts, a + 1, b);

    let closing = door_after(start, dts, a + 1 + b);
    let last = dts.skip(a + 1 + b);
    lemma_rest_runs_forward(dts, a + 1 + b);
    lemma_door_closes_linearly(closing, last, c);
    lemma_door_ends_closed(closing, last, c);
    lemma_updates_in_two_runs(start, dts, a + 1 + b, c);
    lemma_updates_in_two_runs(start, dts, a + 1 + b, c + 1);

    let closed = door_after(start, dts, a + 1 + b + c + 1);
    let end = dts.skip(a + 1 + b + c + 1);
    lemma_closed_door_rests(closed, end, k - (a + 1 + b + c + 1));
    lemma_updates_in_two_runs(start, dts, a + 1 + b + c + 1, k - (a + 1 + b + c + 1));
}

/// Air stays air.
pub proof fn lemma_air_stays(dts: Seq<Fixed>, k: int)
    requires
        0 <= k <= dts.len(),
    ensures
        cell_after(Cell::Empty, dts, k) == Cell::Empty,
    decreases k,
{
    if k > 0 {
        lemma_air_stays(dts, k - 1);
    }
}

/// A pushable panel that moves is gone once its timer has reached
/// [`PUSH_TIME`].
proof fn lemma_moving_panel_vanishes(cell: Cell, dts: Seq<Fixed>, k: int)
    requires
        cell.wf(),
        forall|i: int| 0 <= i < dts.len() ==> #[trigger] dts[i] >= 0,
        1 <= k <= dts.len(),
        match cell {
            Cell::Empty => true,
            Cell::Thin(ThinObject::Panel(wall)) => wall.pushable && wall.moving && wall.delta >= 0
                && wall.delta + elapsed(dts, k) >= PUSH_TIME,
            _ => false,
        },
    ensures
        cell_after(cell, dts, k) == Cell::Empty,
    decreases k,
{
    match cell {
        Cell::Thin(ThinObject::Panel(wall)) => {
            lemma_elapsed_grows(dts, k - 1, k);
            if k > 1 {
                if wall.delta + elapsed(dts, k - 1) >= PUSH_TIME {
                    lemma_moving_panel_vanishes(cell, dts, k - 1);
                } else {
                    lemma_panel_keeps_moving(wall, dts, k - 1);
                }
            }
        },
        _ => {
            lemma_air_stays(dts, k);
        },
    }
}

/// A pushable panel that moves and whose timer is short of [`PUSH_TIME`]
/// is still there, still moves, and has counted all the time.
proof fn lemma_panel_keeps_moving(wall: ThinWall, dts: Seq<Fixed>, k: int)
    requires
        wall.wf(),
        wall.pushable,
        wall.moving,
        wall.delta >= 0,
        forall|i: int| 0 <= i < dts.len() ==> #[trigger] dts[i] >= 0,
        0 <= k <= dts.len(),
        wall.delta + elapsed(dts, k) < PUSH_TIME,
    ensures
        cell_after(Cell::Thin(ThinObject::Panel(wall)), dts, k) matches Cell::Thin(
            ThinObject::Panel(now),
        ) && now.pushable && now.moving && now.delta == wall.delta + elapsed(dts, k) && now.wf(),
    decreases k,
{
    if k > 0 {
        lemma_elapsed_grows(dts, k - 1, k);
        lemma_panel_keeps_moving(wall, dts, k - 1);
        let later = wall.delta + elapsed(dts, k);
        assert(div_spec(later, 2 * ONE) == (later * 1_000_000) / 2_000_000);
    }
}

/// A pushed panel vanishes.
///
/// Take a cell with a pushable panel, at rest or on its way, set it off, and
/// let it have any updates that do not run backward. Once they add up to
/// [`PUSH_TIME`], the cell is air, and stays air.
pub proof fn lemma_pushed_panel_vanishes(wall: ThinWall, dts: Seq<Fixed>, k: int)
    requires
        wall.wf(),
        wall.pushable,
        forall|i: int| 0 <= i < dts.len() ==> #[trigger] dts[i] >= 0,
        0 <= k <= dts.len(),
        elapsed(dts, k) >= PUSH_TIME,
    ensures
        cell_after(Cell::Thin(ThinObject::Panel(wall)).triggered(), dts, k) == Cell::Empty,
{
    let set_off = wall.after_trigger();
    crate::cell::thinwall::lemma_timer_of_depth(wall.depth);
    assert(set_off.wf());
    assert(k >= 1);
    lemma_elapsed_grows(dts, 0, k);
    lemma_moving_panel_vanishes(Cell::Thin(ThinObject::Panel(set_off)), dts, k);
}

} // verus!
