use vstd::prelude::*;

verus! {

/// How an animation goes on once it has shown its last frame.
#[derive(Clone, Copy, PartialEq, Eq, Structural, Debug)]
pub enum AnimationStyle {
    /// Stay on the last frame.
    Once,
    /// Start again from the first frame.
    Looping,
}

/// The rate that `from_frames` gives an animation, in frames per second.
pub const DEFAULT_ANIMATION_FPS: u32 = 5;

/// One named animation: frame identifiers (1-based sheet cells, negative for a
/// mirrored cell), a playback rate and what happens after the last frame.
pub struct SpritesheetAnimation {
    pub frames: Vec<i8>,
    /// Frames per second. Zero is a misconfiguration, refused when the
    /// animation is started.
    pub fps: u32,
    pub looping: AnimationStyle,
}

impl SpritesheetAnimation {
    /// Every frame identifier addresses a cell.
    pub open spec fn wf(&self) -> bool {
        forall|i: int| 0 <= i < self.frames@.len() ==> #[trigger] self.frames@[i] != 0
    }

    /// The frame position that follows `idx` when the clock expires once.
    pub open spec fn next_index(&self, idx: int) -> int {
        if idx + 1 < self.frames@.len() {
            idx + 1
        } else if self.looping == AnimationStyle::Looping {
            0
        } else {
            idx
        }
    }

    /// The frame position after the clock has expired `times` times, one
    /// step per expiry, in order.
    pub open spec fn advance(&self, idx: int, times: nat) -> int
        decreases times,
    {
        if times == 0 {
            idx
        } else {
            self.advance(self.next_index(idx), (times - 1) as nat)
        }
    }

    /// An animation at the default rate that loops.
    pub fn from_frames(frames: Vec<i8>) -> (r: Self)
        ensures
            r.frames@ == frames@,
            r.fps == DEFAULT_ANIMATION_FPS,
            r.looping == AnimationStyle::Looping,
    {
        SpritesheetAnimation { frames, fps: DEFAULT_ANIMATION_FPS, looping: AnimationStyle::Looping }
    }

    /// An animation with every setting given.
    pub fn new(frames: Vec<i8>, fps: u32, looping: AnimationStyle) -> (r: Self)
        ensures
            r.frames@ == frames@,
            r.fps == fps,
            r.looping == looping,
    {
        SpritesheetAnimation { frames, fps, looping }
    }

    /// Checks that every frame identifier addresses a cell.
    pub fn is_valid(&self) -> (r: bool)
        ensures
            r == self.wf(),
    {
        let mut i: usize = 0;
        while i < self.frames.len()
            invariant
                i <= self.frames@.len(),
                forall|j: int| 0 <= j < i ==> #[trigger] self.frames@[j] != 0,
            decreases self.frames@.len() - i,
        {
            if self.frames[i] == 0 {
                return false;
            }
            i = i + 1;
        }
        true
    }

    /// The frame position after `times` expiries of the clock, from `idx`.
    pub fn frame_after(&self, idx: usize, times: u64) -> (r: usize)
        requires
            idx < self.frames@.len() || (idx == 0 && self.frames@.len() == 0),
        ensures
            r == self.advance(idx as int, times as nat),
            r < self.frames@.len() || (r == 0 && self.frames@.len() == 0),
    {
        let n = self.frames.len();
        if n == 0 {
            proof { self.lemma_advance_empty(idx as int, times as nat); }
            idx
        } else if self.looping == AnimationStyle::Looping {
            proof { self.lemma_advance_looping(idx as int, times as nat); }
            let shift: usize = (times % (n as u64)) as usize;
            proof {
                vstd::arithmetic::div_mod::lemma_add_mod_noop(idx as int, times as int, n as int);
                vstd::arithmetic::div_mod::lemma_mod_twice(times as int, n as int);
                vstd::arithmetic::div_mod::lemma_add_mod_noop(idx as int, shift as int, n as int);
                vstd::arithmetic::div_mod::lemma_small_mod(idx as nat, n as nat);
            }
            if shift >= n - idx {
                proof {
                    vstd::arithmetic::div_mod::lemma_mod_sub_multiples_vanish(idx as int + shift as int, n as int);
                    vstd::arithmetic::div_mod::lemma_small_mod((idx + shift - n) as nat, n as nat);
                }
                idx - (n - shift)
            } else {
                proof { vstd::arithmetic::div_mod::lemma_small_mod((idx + shift) as nat, n as nat); }
                idx + shift
            }
        } else {
            proof { self.lemma_advance_once(idx as int, times as nat); }
            if times >= (n - 1 - idx) as u64 {
                n - 1
            } else {
                idx + times as usize
            }
        }
    }

    /// With no frames the position never moves.
    pub proof fn lemma_advance_empty(&self, idx: int, times: nat)
        requires
            self.frames@.len() == 0,
            idx >= 0,
        ensures
            self.advance(idx, times) == if self.looping == AnimationStyle::Looping && times > 0 {
                0
            } else {
                idx
            },
        decreases times,
    {
        if times > 0 {
            assert(self.advance(idx, times) == self.advance(self.next_index(idx), (times - 1) as nat));
            self.lemma_advance_empty(self.next_index(idx), (times - 1) as nat);
        }
    }

    /// A looping animation moves one position per expiry, round its frames.
    pub proof fn lemma_advance_looping(&self, idx: int, times: nat)
        requires
            self.frames@.len() > 0,
            self.looping == AnimationStyle::Looping,
            0 <= idx < self.frames@.len(),
        ensures
            self.advance(idx, times) == (idx + times) % (self.frames@.len() as int),
        decreases times,
    {
        let n = self.frames@.len() as int;
        if times == 0 {
            vstd::arithmetic::div_mod::lemma_small_mod(idx as nat, n as nat);
        } else {
            let nx = self.next_index(idx);
            assert(nx == (idx + 1) % n) by {
                if idx + 1 < n {
                    vstd::arithmetic::div_mod::lemma_small_mod(idx as nat + 1, n as nat);
                } else {
                    vstd::arithmetic::div_mod::lemma_mod_self_0(n);
                }
            }
            self.lemma_advance_looping(nx, (times - 1) as nat);
            vstd::arithmetic::div_mod::lemma_add_mod_noop(idx + 1, times - 1, n);
            vstd::arithmetic::div_mod::lemma_mod_twice(times - 1, n);
            vstd::arithmetic::div_mod::lemma_add_mod_noop(nx, times - 1, n);
        }
    }

    /// An animation that plays once moves one position per expiry and stays
    /// on its last frame.
    pub proof fn lemma_advance_once(&self, idx: int, times: nat)
        requires
            self.frames@.len() > 0,
            self.looping == AnimationStyle::Once,
            0 <= idx < self.frames@.len(),
        ensures
            self.advance(idx, times) == if idx + times >= self.frames@.len() - 1 {
                self.frames@.len() - 1
            } else {
                idx + times
            },
        decreases times,
    {
        if times > 0 {
            self.lemma_advance_once(self.next_index(idx), (times - 1) as nat);
        }
    }

    /// A looping animation of `n` frames is back at its first frame after
    /// exactly `n` expiries of the clock, and not before.
    pub proof fn lemma_looping_cycle(&self)
        requires
            self.frames@.len() > 0,
            self.looping == AnimationStyle::Looping,
        ensures
            self.advance(0, self.frames@.len()) == 0,
            forall|k: nat| 0 < k < self.frames@.len() ==> #[trigger] self.advance(0, k) == k,
    {
        let n = self.frames@.len();
        self.lemma_advance_looping(0, n);
        vstd::arithmetic::div_mod::lemma_mod_self_0(n as int);
        assert forall|k: nat| 0 < k < self.frames@.len() implies #[trigger] self.advance(0, k) == k by {
            self.lemma_advance_looping(0, k);
            vstd::arithmetic::div_mod::lemma_small_mod(k, n);
        }
    }

    /// An animation that plays once, on its last frame, stays there however
    /// often the clock expires.
    pub proof fn lemma_once_freezes(&self, times: nat)
        requires
            self.frames@.len() > 0,
            self.looping == AnimationStyle::Once,
        ensures
            self.advance(self.frames@.len() - 1, times) == self.frames@.len() - 1,
    {
        self.lemma_advance_once(self.frames@.len() - 1, times);
    }
}

} // verus!
