//! A sliding door.
use vstd::prelude::*;
use crate::direction::Direction;
use crate::fixed::{Fixed, ONE, HALF, add_spec, sub_spec, div_spec, fx_add, fx_sub, fx_div};
use crate::cell::{Interaction, Thin, DOOR_VALUE};

verus! {

/// The time a door takes to slide open, and to slide shut: a second and a half.
pub const SLIDE_TIME: Fixed = 1_500_000;

/// The time a door stays open: three seconds.
pub const OPEN_TIME: Fixed = 3_000_000;

/// Where a door is in its cycle.
#[derive(Clone, Copy, Debug, PartialEq, Eq, Structural)]
pub enum DoorState {
    Closed,
    Opened,
    Closing,
    Opening,
}

/// A thin wall that slides open when triggered, waits, and slides shut.
#[derive(Clone, Copy, Debug, PartialEq, Eq, Structural)]
pub struct Door {
    /// The texture of the door, at least [`DOOR_VALUE`].
    pub value: u32,
    /// How much of the doorway the panel covers, from 0 (open) to 1 (shut).
    pub slide: Fixed,
    /// The face of the cell the door stands on.
    pub dir: Direction,
    /// The time spent in the current state.
    pub delta: Fixed,
    pub state: DoorState,
}

/// `v` held within `[0, ONE]`.
pub open spec fn unit_held(v: int) -> int {
    if v < 0 {
        0
    } else if v > ONE {
        ONE as int
    } else {
        v
    }
}

impl Door {
    /// A door is well formed when its slide is a fraction, is 1 while closed
    /// and 0 while open, and its texture is a door's.
    pub open spec fn wf(self) -> bool {
        &&& self.value >= DOOR_VALUE
        &&& 0 <= self.slide <= ONE
        &&& self.state == DoorState::Closed ==> self.slide == ONE
        &&& self.state == DoorState::Opened ==> self.slide == 0
    }

    /// A closed door with the texture `value` on the face `dir`.
    pub open spec fn new_spec(value: u32, dir: Direction) -> Door {
        Door { value, slide: ONE, dir, delta: 0, state: DoorState::Closed }
    }

    /// A closed door with the texture `value` on the face `dir`.
    pub fn new(value: u32, dir: Direction) -> (r: Door)
        requires
            value >= DOOR_VALUE,
        ensures
            r == Door::new_spec(value, dir),
            r.wf(),
    {
        Door { value, slide: ONE, dir, delta: 0, state: DoorState::Closed }
    }

    /// The door after a trigger: a closed door starts to open, any other
    /// goes on as it was.
    pub open spec fn after_trigger(self) -> Door {
        if self.state == DoorState::Closed {
            Door { delta: 0, state: DoorState::Opening, ..self }
        } else {
            self
        }
    }

    /// The door after `dt` seconds have passed.
    ///
    /// While it opens, the slide is set from the time spent so far, and falls
    /// from 1 to 0 over [`SLIDE_TIME`]; once that time is exceeded the door is
    /// open. An open door counts up to [`OPEN_TIME`] and then starts to close.
    /// While it closes the slide rises from 0 to 1 over [`SLIDE_TIME`], and
    /// the door is closed once that time is exceeded.
    pub open spec fn after_update(self, dt: int) -> Door {
        let later = add_spec(self.delta as int, dt);
        match self.state {
            DoorState::Closed => self,
            DoorState::Opened => {
                if later >= OPEN_TIME {
                    Door { delta: 0, state: DoorState::Closing, ..self }
                } else {
                    Door { delta: later as i64, ..self }
                }
            },
            DoorState::Opening => {
                let slide = sub_spec(ONE as int, div_spec(self.delta as int, SLIDE_TIME as int));
                if slide < 0 {
                    Door { slide: 0, delta: 0, state: DoorState::Opened, ..self }
                } else {
                    Door { slide: unit_held(slide) as i64, delta: later as i64, ..self }
                }
            },
            DoorState::Closing => {
                let slide = div_spec(self.delta as int, SLIDE_TIME as int);
                if slide > ONE {
                    Door { slide: ONE, delta: 0, state: DoorState::Closed, ..self }
                } else {
                    Door { slide: unit_held(slide) as i64, delta: later as i64, ..self }
                }
            },
        }
    }

    /// The state of the door.
    pub fn state(&self) -> (r: DoorState)
        ensures
            r == self.state,
    {
        self.state
    }
}

fn hold_unit(v: Fixed) -> (r: Fixed)
    ensures
        r == unit_held(v as int),
{
    if v < 0 {
        0
    } else if v > ONE {
        ONE
    } else {
        v
    }
}

impl Interaction for Door {
    open spec fn triggered(self) -> Door {
        self.after_trigger()
    }

    open spec fn updated(self, delta: int) -> Door {
        self.after_update(delta)
    }

    open spec fn valid(self) -> bool {
        self.wf()
    }

    fn trigger(&mut self) {
        match self.state {
            DoorState::Closed => {
                self.delta = 0;
                self.state = DoorState::Opening;
            },
            _ => {},
        }
    }

    fn update(&mut self, delta: Fixed) {
        match self.state {
            DoorState::Opened => {
                self.delta = fx_add(self.delta, delta);
                if self.delta >= OPEN_TIME {
                    self.delta = 0;
                    self.state = DoorState::Closing;
                }
            },
            DoorState::Closed => {},
            DoorState::Opening => {
                let slide: Fixed = fx_sub(ONE, fx_div(self.delta, SLIDE_TIME));
                self.delta = fx_add(self.delta, delta);
                if slide < 0 {
                    self.slide = 0;
                    self.delta = 0;
                    self.state = DoorState::Opened;
                } else {
                    self.slide = hold_unit(slide);
                }
            },
            DoorState::Closing => {
                let slide: Fixed = fx_div(self.delta, SLIDE_TIME);
                self.delta = fx_add(self.delta, delta);
                if slide > ONE {
                    self.delta = 0;
                    self.slide = ONE;
                    self.state = DoorState::Closed;
                } else {
                    self.slide = hold_unit(slide);
                }
            },
        }
    }
}

impl Thin for Door {
    open spec fn thin_value(self) -> u32 {
        self.value
    }

    open spec fn thin_dir(self) -> Direction {
        self.dir
    }

    open spec fn thin_slide(self) -> Fixed {
        self.slide
    }

    open spec fn thin_depth(self) -> Fixed {
        HALF
    }

    open spec fn thin_pushable(self) -> bool {
        false
    }

    fn value(&self) -> u32 {
        self.value
    }

    fn dir(&self) -> Direction {
        self.dir
    }

    fn slide(&self) -> Fixed {
        self.slide
    }

    fn depth(&self) -> Fixed {
        HALF
    }

    fn pushable(&self) -> bool {
        false
    }
}

} // verus!
