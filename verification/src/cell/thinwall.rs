//! A thin wall, which may be pushed in.
use vstd::prelude::*;
use crate::direction::Direction;
use crate::fixed::{Fixed, ONE, HALF, add_spec, sub_spec, mul_spec, div_spec, fx_add, fx_sub, fx_mul,
    fx_div};
use crate::cell::{Interaction, Thin, DOOR_VALUE};
use crate::cell::door::unit_held;

verus! {

/// The time a pushed panel takes to go in all the way: two seconds.
pub const PUSH_TIME: Fixed = 2_000_000;

/// A thin wall. A pushable one starts flush with its face and, once
/// triggered, goes in until it is gone. One that is not pushable stands in the
/// middle of its cell and never moves.
#[derive(Clone, Copy, Debug, PartialEq, Eq, Structural)]
pub struct ThinWall {
    /// The texture of the wall, below [`DOOR_VALUE`].
    pub value: u32,
    /// How far the wall stands from the far face of its cell, from 0 to 1.
    pub depth: Fixed,
    /// The face of the cell the wall stands on.
    pub dir: Direction,
    /// The time spent moving.
    pub delta: Fixed,
    pub moving: bool,
    pub pushable: bool,
}

impl ThinWall {
    /// The depth of a panel that has been moving for the time `t`: it
    /// falls from 1 to 0 in a straight line over [`PUSH_TIME`].
    pub open spec fn depth_at(t: int) -> int {
        unit_held(sub_spec(ONE as int, div_spec(t, 2 * ONE)))
    }

    /// A thin wall is well formed when its depth is a fraction, its
    /// texture is not a door's, and, while it moves, it can be pushed, its
    /// timer has not run backward and its depth is the one that belongs to
    /// its timer.
    pub open spec fn wf(self) -> bool {
        &&& self.value < DOOR_VALUE
        &&& 0 <= self.depth <= ONE
        &&& self.moving ==> self.pushable && self.delta >= 0 && self.depth == Self::depth_at(
            self.delta as int,
        )
    }

    /// A thin wall at rest: at depth 1 if it can be pushed, else at one half.
    pub open spec fn new_spec(value: u32, dir: Direction, pushable: bool) -> ThinWall {
        ThinWall {
            value,
            depth: if pushable { ONE } else { HALF },
            dir,
            delta: 0,
            moving: false,
            pushable,
        }
    }

    /// A thin wall at rest: at depth 1 if it can be pushed, else at one half.
    pub fn new(value: u32, dir: Direction, pushable: bool) -> (r: ThinWall)
        requires
            value < DOOR_VALUE,
        ensures
            r == ThinWall::new_spec(value, dir, pushable),
            r.wf(),
    {
        let depth: Fixed = if pushable { ONE } else { HALF };

        ThinWall { value, depth, dir, delta: 0, moving: false, pushable }
    }

    /// The wall after a trigger. A pushable wall starts to move, its timer
    /// set to the time that its depth stands for, so that a wall already
    /// part of the way in goes on from there.
    pub open spec fn after_trigger(self) -> ThinWall {
        if self.pushable {
            ThinWall {
                moving: true,
                delta: mul_spec(2 * ONE, sub_spec(ONE as int, self.depth as int)) as i64,
                ..self
            }
        } else {
            self
        }
    }

    /// The timer `delta` after `dt` seconds more. A timer does not run
    /// below zero.
    pub open spec fn timer_after(delta: int, dt: int) -> int {
        if add_spec(delta, dt) < 0 {
            0
        } else {
            add_spec(delta, dt)
        }
    }

    /// The wall after `dt` seconds have passed. A moving wall's depth falls
    /// from 1 to 0 over [`PUSH_TIME`]; when the time is up the wall is all
    /// the way in and stops.
    pub open spec fn after_update(self, dt: int) -> ThinWall {
        if !self.pushable || !self.moving {
            self
        } else {
            let later = Self::timer_after(self.delta as int, dt);
            if later >= PUSH_TIME {
                ThinWall { delta: later as i64, depth: 0, moving: false, ..self }
            } else {
                ThinWall { delta: later as i64, depth: Self::depth_at(later) as i64, ..self }
            }
        }
    }
}

impl Interaction for ThinWall {
    open spec fn triggered(self) -> ThinWall {
        self.after_trigger()
    }

    open spec fn updated(self, delta: int) -> ThinWall {
        self.after_update(delta)
    }

    open spec fn valid(self) -> bool {
        self.wf()
    }

    fn trigger(&mut self) {
        if self.pushable {
            proof {
                lemma_timer_of_depth(self.depth);
            }
            self.moving = true;
            self.delta = fx_mul(2 * ONE, fx_sub(ONE, self.depth));
        }
    }

    fn update(&mut self, delta: Fixed) {
        if !self.pushable || !self.moving {
            return ;
        }
        let later: Fixed = fx_add(self.delta, delta);
        self.delta = if later < 0 { 0 } else { later };
        if self.delta >= PUSH_TIME {
            self.depth = 0;
            self.moving = false;
        } else {
            let depth: Fixed = fx_sub(ONE, fx_div(self.delta, 2 * ONE));
            self.depth = if depth < 0 {
                0
            } else if depth > ONE {
                ONE
            } else {
                depth
            };
        }
    }
}

impl Thin for ThinWall {
    open spec fn thin_value(self) -> u32 {
        self.value
    }

    open spec fn thin_dir(self) -> Direction {
        self.dir
    }

    open spec fn thin_slide(self) -> Fixed {
        ONE
    }

    open spec fn thin_depth(self) -> Fixed {
        self.depth
    }

    open spec fn thin_pushable(self) -> bool {
        self.pushable
    }

    fn value(&self) -> u32 {
        self.value
    }

    fn dir(&self) -> Direction {
        self.dir
    }

    fn slide(&self) -> Fixed {
        ONE
    }

    fn depth(&self) -> Fixed {
        self.depth
    }

    fn pushable(&self) -> bool {
        self.pushable
    }
}

/// The timer that a trigger sets for a depth is the time at which a moving
/// panel has that depth.
pub proof fn lemma_timer_of_depth(depth: Fixed)
    requires
        0 <= depth <= ONE,
    ensures
        mul_spec(2 * ONE, sub_spec(ONE as int, depth as int)) == 2 * (ONE - depth),
        ThinWall::depth_at(2 * (ONE - depth)) == depth,
{
    let rest = ONE - depth;
    assert((2_000_000 * rest) / 1_000_000 == 2 * rest);
    assert((2 * ONE) * rest == 2_000_000 * rest);
    assert(((2 * rest) * 1_000_000) / 2_000_000 == rest);
    assert((2 * rest) * ONE == (2 * rest) * 1_000_000);
}

/// A panel that moves never comes back out: an update that does not run
/// backward leaves its depth where it was or takes it further in.
pub proof fn lemma_panel_only_goes_in(wall: ThinWall, dt: int)
    requires
        wall.wf(),
        dt >= 0,
    ensures
        wall.after_update(dt).depth <= wall.depth,
        wall.after_update(dt).wf(),
{
    if wall.pushable && wall.moving {
        let later = ThinWall::timer_after(wall.delta as int, dt);
        assert(later >= wall.delta);
        assert((wall.delta * 1_000_000) / 2_000_000 <= (later * 1_000_000) / 2_000_000);
        assert(wall.delta * ONE == wall.delta * 1_000_000 && later * ONE == later * 1_000_000);
    }
}

} // verus!
