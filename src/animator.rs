use vstd::prelude::*;
use crate::clock::{AnimationClock, period_of};
use crate::direction::{MoveIntent, resolve_direction, requested_state, spec_requested_state, spec_resolve};
use crate::frame::{SpriteFrame, encode_frame, spec_encode_frame};
use crate::sequence::SpritesheetAnimation;
use crate::table::AnimationTable;

verus! {

/// Why an animation cannot be started. Both are errors in the authored data.
#[derive(Clone, Copy, PartialEq, Eq, Structural, Debug)]
pub enum AnimError {
    /// The start state is not in the table.
    InvalidStartState,
    /// The animation has a rate of zero frames per second.
    InvalidFrameRate,
}

/// The animation state of one entity: which animation plays, at which frame,
/// the clock that advances it, and the frame shown.
pub struct SpritesheetAnimator {
    states: AnimationTable,
    timer: AnimationClock,
    cur_state: String,
    cur_frame_idx: usize,
    cells: usize,
    sprite: SpriteFrame,
}

/// What is shown before any frame has been written.
pub open spec fn blank_sprite() -> SpriteFrame {
    SpriteFrame { index: 0, flip_x: false }
}

impl SpritesheetAnimator {
    /// The animations, by state name.
    pub closed spec fn table(&self) -> Map<Seq<char>, SpritesheetAnimation> {
        self.states@
    }

    /// The name of the animation that plays.
    pub closed spec fn state(&self) -> Seq<char> {
        self.cur_state@
    }

    /// The position in the frames of the animation that plays.
    pub closed spec fn frame_index(&self) -> int {
        self.cur_frame_idx as int
    }

    pub closed spec fn clock(&self) -> AnimationClock {
        self.timer
    }

    /// The number of cells of the sprite sheet.
    pub closed spec fn cells(&self) -> nat {
        self.cells as nat
    }

    /// The frame shown.
    pub closed spec fn sprite(&self) -> SpriteFrame {
        self.sprite
    }

    /// The animation that plays.
    pub open spec fn current(&self) -> SpritesheetAnimation {
        self.table()[self.state()]
    }

    /// The frame shown is the one at the current position, where the
    /// animation has frames.
    pub open spec fn shows_current_frame(&self) -> bool {
        self.current().frames@.len() > 0 ==> self.sprite() == spec_encode_frame(
            self.current().frames@[self.frame_index()],
            self.cells(),
        )
    }

    pub closed spec fn wf(&self) -> bool {
        &&& self.states.wf()
        &&& self.states@.contains_key(self.cur_state@)
        &&& self.timer.wf()
        &&& self.cells > 0
        &&& self.current().fps > 0
        &&& self.timer.period() == period_of(self.current().fps)
        &&& (self.cur_frame_idx < self.current().frames@.len() || (self.cur_frame_idx == 0
            && self.current().frames@.len() == 0))
        &&& self.shows_current_frame()
    }

    /// The animation `name` has just started: first frame, clock restarted
    /// at its period, and its first frame shown (where it has one).
    pub open spec fn restarted(&self, prior: SpriteFrame, name: Seq<char>) -> bool {
        &&& self.state() == name
        &&& self.frame_index() == 0
        &&& self.clock().elapsed() == 0
        &&& self.clock().period() == period_of(self.current().fps)
        &&& self.shows_current_frame()
        &&& (self.current().frames@.len() == 0 ==> self.sprite() == prior)
    }

    /// Starts the animation `start_state` of `states`, for a sprite sheet of
    /// `cells` cells.
    pub fn new(states: AnimationTable, start_state: String, cells: usize) -> (r: Result<
        Self,
        AnimError,
    >)
        requires
            states.wf(),
            cells > 0,
        ensures
            r matches Err(AnimError::InvalidStartState) <==> !states@.contains_key(start_state@),
            r matches Err(AnimError::InvalidFrameRate) <==> states@.contains_key(start_state@)
                && states@[start_state@].fps == 0,
            match r {
                Ok(a) => {
                    &&& a.wf()
                    &&& a.table() == states@
                    &&& a.cells() == cells
                    &&& a.restarted(blank_sprite(), start_state@)
                },
                Err(_) => true,
            },
    {
        let (timer, sprite) = match states.get(&start_state) {
            Some(anim) => {
                if anim.fps == 0 {
                    return Err(AnimError::InvalidFrameRate);
                }
                let sprite = if anim.frames.len() > 0 {
                    encode_frame(anim.frames[0], cells)
                } else {
                    SpriteFrame { index: 0, flip_x: false }
                };
                (AnimationClock::from_fps(anim.fps), sprite)
            },
            None => {
                return Err(AnimError::InvalidStartState);
            },
        };
        Ok(SpritesheetAnimator { states, timer, cur_state: start_state, cur_frame_idx: 0, cells, sprite })
    }

    /// Switches to the animation `state_name` and restarts it, also where it
    /// is the one that plays. `Ok(false)`, with nothing changed, where the
    /// table has no such animation.
    pub fn set_state(&mut self, state_name: String) -> (r: Result<bool, AnimError>)
        requires
            old(self).wf(),
        ensures
            final(self).wf(),
            final(self).table() == old(self).table(),
            final(self).cells() == old(self).cells(),
            !old(self).table().contains_key(state_name@) ==> r == Ok::<bool, AnimError>(false)
                && *final(self) == *old(self),
            old(self).table().contains_key(state_name@) && old(self).table()[state_name@].fps == 0
                ==> r == Err::<bool, AnimError>(AnimError::InvalidFrameRate) && *final(self)
                == *old(self),
            old(self).table().contains_key(state_name@) && old(self).table()[state_name@].fps > 0
                ==> r == Ok::<bool, AnimError>(true) && final(self).restarted(
                old(self).sprite(),
                state_name@,
            ),
    {
        let (timer, sprite) = match self.states.get(&state_name) {
            Some(anim) => {
                if anim.fps == 0 {
                    return Err(AnimError::InvalidFrameRate);
                }
                let sprite = if anim.frames.len() > 0 {
                    encode_frame(anim.frames[0], self.cells)
                } else {
                    self.sprite
                };
                (AnimationClock::from_fps(anim.fps), sprite)
            },
            None => {
                return Ok(false);
            },
        };
        self.cur_state = state_name;
        self.cur_frame_idx = 0;
        self.timer = timer;
        self.sprite = sprite;
        Ok(true)
    }

    /// Advances the clock by `delta_ns` nanoseconds, and the frame by one
    /// position for each period that expires.
    pub fn tick(&mut self, delta_ns: u64)
        requires
            old(self).wf(),
        ensures
            final(self).wf(),
            final(self).table() == old(self).table(),
            final(self).state() == old(self).state(),
            final(self).cells() == old(self).cells(),
            final(self).clock().period() == old(self).clock().period(),
            final(self).clock().elapsed() == (old(self).clock().elapsed() + delta_ns) % old(
                self,
            ).clock().period(),
            final(self).frame_index() == old(self).current().advance(
                old(self).frame_index(),
                ((old(self).clock().elapsed() + delta_ns) / old(self).clock().period()) as nat,
            ),
            final(self).shows_current_frame(),
            old(self).current().frames@.len() == 0 ==> final(self).sprite() == old(self).sprite(),
    {
        let times = self.timer.tick(delta_ns);
        if times > 0 {
            match self.states.get(&self.cur_state) {
                Some(anim) => {
                    let next = anim.frame_after(self.cur_frame_idx, times);
                    if next < anim.frames.len() {
                        self.sprite = encode_frame(anim.frames[next], self.cells);
                    }
                    self.cur_frame_idx = next;
                },
                None => {},
            }
        }
    }

    /// Reads the movement keys: switches to the animation they ask for and
    /// returns the movement they ask for.
    pub fn player_input(&mut self, left: bool, up: bool, right: bool, down: bool) -> (r: Result<
        MoveIntent,
        AnimError,
    >)
        requires
            old(self).wf(),
        ensures
            final(self).wf(),
            final(self).table() == old(self).table(),
            final(self).cells() == old(self).cells(),
            match spec_requested_state(old(self).state(), spec_resolve(left, up, right, down).facing) {
                None => r == Ok::<MoveIntent, AnimError>(spec_resolve(left, up, right, down))
                    && *final(self) == *old(self),
                Some(target) => if !old(self).table().contains_key(target) {
                    r == Ok::<MoveIntent, AnimError>(spec_resolve(left, up, right, down))
                        && *final(self) == *old(self)
                } else if old(self).table()[target].fps == 0 {
                    r == Err::<MoveIntent, AnimError>(AnimError::InvalidFrameRate) && *final(self)
                        == *old(self)
                } else {
                    r == Ok::<MoveIntent, AnimError>(spec_resolve(left, up, right, down))
                        && final(self).restarted(old(self).sprite(), target)
                },
            },
    {
        let intent = resolve_direction(left, up, right, down);
        match requested_state(&self.cur_state, intent.facing) {
            Some(target) => {
                match self.set_state(target) {
                    Ok(_) => Ok(intent),
                    Err(e) => Err(e),
                }
            },
            None => Ok(intent),
        }
    }

    /// A tick of exactly one clock period is exactly one expiry and leaves
    /// the clock at the same phase: the frame moves by one position.
    pub proof fn lemma_period_tick_is_one_step(&self)
        requires
            self.wf(),
        ensures
            (self.clock().elapsed() + self.clock().period()) / self.clock().period() == 1,
            (self.clock().elapsed() + self.clock().period()) % self.clock().period()
                == self.clock().elapsed(),
            self.current().advance(self.frame_index(), 1) == self.current().next_index(
                self.frame_index(),
            ),
    {
        self.timer.lemma_phase_in_period();
        vstd::arithmetic::div_mod::lemma_fundamental_div_mod_converse(
            self.clock().elapsed() + self.clock().period(),
            self.clock().period(),
            1,
            self.clock().elapsed(),
        );
        assert(self.current().advance(self.frame_index(), 1) == self.current().advance(
            self.current().next_index(self.frame_index()),
            0,
        ));
    }

    /// The name of the animation that plays.
    pub fn cur_state(&self) -> (r: &String)
        ensures
            r@ == self.state(),
    {
        &self.cur_state
    }

    /// The position in the frames of the animation that plays.
    pub fn cur_frame_idx(&self) -> (r: usize)
        ensures
            r == self.frame_index(),
    {
        self.cur_frame_idx
    }

    /// The frame shown.
    pub fn sprite_frame(&self) -> (r: SpriteFrame)
        ensures
            r == self.sprite(),
    {
        self.sprite
    }

    /// The period of the animation clock, in nanoseconds.
    pub fn period_ns(&self) -> (r: u64)
        ensures
            r == self.clock().period(),
    {
        self.timer.period_ns()
    }

    /// The time elapsed in the current clock period, in nanoseconds.
    pub fn elapsed_ns(&self) -> (r: u64)
        ensures
            r == self.clock().elapsed(),
    {
        self.timer.elapsed_ns()
    }
}

} // verus!
