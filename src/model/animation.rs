use vstd::prelude::*;

verus! {

/// One animation clip: the sprite frames `[from_index, to_index)` of the sprite
/// sheet, each shown for `timeout` microseconds.
#[derive(Clone, Copy, Debug, PartialEq, Eq, Structural)]
pub struct SpriteAnimationMetaData {
    pub from_index: i32,
    pub to_index: i32,
    pub timeout: u64,
}

impl SpriteAnimationMetaData {
    /// A clip with at least one frame, a positive frame time, and a total
    /// length that a `u64` can count.
    pub open spec fn is_valid(self) -> bool {
        &&& 0 <= self.from_index < self.to_index
        &&& self.timeout > 0
        &&& self.duration() <= u64::MAX
    }

    /// Length of one loop of the clip, in microseconds.
    pub open spec fn duration(self) -> int {
        (self.to_index - self.from_index) * self.timeout
    }

    proof fn lemma_duration_positive(self)
        requires
            self.is_valid(),
        ensures
            self.duration() > 0,
    {
        assert((self.to_index - self.from_index) * self.timeout > 0) by (nonlinear_arith)
            requires
                self.to_index - self.from_index > 0,
                self.timeout > 0,
        ;
    }

    fn duration_of(&self) -> (r: u64)
        requires
            self.is_valid(),
        ensures
            r == self.duration(),
            r > 0,
    {
        proof {
            self.lemma_duration_positive();
        }
        ((self.to_index - self.from_index) as u64) * self.timeout
    }
}

/// What a `SpriteAnimation` holds: its clip table, the clip playing, and the
/// time spent in that clip.
pub struct AnimationState {
    pub clips: Seq<SpriteAnimationMetaData>,
    pub current: int,
    pub time: int,
}

impl AnimationState {
    /// The current clip exists, every clip is valid, and the elapsed time lies
    /// in `[0, duration)` of the current clip.
    pub open spec fn wf(self) -> bool {
        &&& 0 <= self.current < self.clips.len()
        &&& forall|i: int| 0 <= i < self.clips.len() ==> (#[trigger] self.clips[i]).is_valid()
        &&& 0 <= self.time < self.clips[self.current].duration()
    }

    /// Playing `clip` for `delta_time` microseconds: the same clip advances and
    /// wraps around its duration; another clip starts over at time 0.
    pub open spec fn advance(self, clip: int, delta_time: int) -> AnimationState {
        if clip == self.current {
            AnimationState {
                time: (self.time + delta_time) % self.clips[self.current].duration(),
                ..self
            }
        } else {
            AnimationState { current: clip, time: 0, ..self }
        }
    }

    /// Playing a clip of the table keeps the state well formed.
    pub proof fn lemma_advance_wf(self, clip: int, delta_time: int)
        requires
            self.wf(),
            0 <= clip < self.clips.len(),
            delta_time >= 0,
        ensures
            self.advance(clip, delta_time).wf(),
    {
        self.clips[self.current].lemma_duration_positive();
        self.clips[clip].lemma_duration_positive();
        vstd::arithmetic::div_mod::lemma_mod_bound(
            self.time + delta_time,
            self.clips[self.current].duration(),
        );
    }

    /// Holding the current clip, two frames take the animation where one frame
    /// of their summed time does: the elapsed time is the total fed, modulo
    /// the clip's duration.
    pub proof fn lemma_advance_accumulates(self, first: int, second: int)
        requires
            self.wf(),
            first >= 0,
            second >= 0,
        ensures
            self.advance(self.current, first).advance(self.current, second) == self.advance(
                self.current,
                first + second,
            ),
    {
        let d = self.clips[self.current].duration();
        self.clips[self.current].lemma_duration_positive();
        assert(((self.time + first) % d + second) % d == (self.time + first + second) % d) by {
            vstd::arithmetic::div_mod::lemma_add_mod_noop(self.time + first, second, d);
            vstd::arithmetic::div_mod::lemma_mod_twice(self.time + first, d);
            vstd::arithmetic::div_mod::lemma_add_mod_noop((self.time + first) % d, second, d);
        }
    }

    /// The sprite frame shown: `from_index + floor(time / timeout)`.
    pub open spec fn frame(self) -> int {
        self.clips[self.current].from_index + self.time / (self.clips[self.current].timeout as int)
    }
}

/// A table of animation clips with the clip that plays and how long it has
/// played.
pub struct SpriteAnimation {
    clips: Vec<SpriteAnimationMetaData>,
    current: usize,
    time: u64,
}

impl View for SpriteAnimation {
    type V = AnimationState;

    closed spec fn view(&self) -> AnimationState {
        AnimationState { clips: self.clips@, current: self.current as int, time: self.time as int }
    }
}

impl SpriteAnimation {
    /// Starts clip `initial` of `clips` at time 0.
    pub fn new(clips: Vec<SpriteAnimationMetaData>, initial: usize) -> (r: SpriteAnimation)
        requires
            initial < clips.len(),
            forall|i: int| 0 <= i < clips.len() ==> (#[trigger] clips@[i]).is_valid(),
        ensures
            r@ == (AnimationState { clips: clips@, current: initial as int, time: 0 }),
            r@.wf(),
    {
        proof {
            assert(clips@[initial as int].is_valid());
            clips@[initial as int].lemma_duration_positive();
        }
        SpriteAnimation { clips, current: initial, time: 0 }
    }

    /// Plays clip `clip` for `delta_time` microseconds: the current clip
    /// advances and loops, any other clip cuts in at its first frame.
    pub fn update_animation(&mut self, clip: usize, delta_time: u64)
        requires
            old(self)@.wf(),
            clip < old(self)@.clips.len(),
        ensures
            final(self)@ == old(self)@.advance(clip as int, delta_time as int),
            final(self)@.wf(),
            clip != old(self)@.current ==> final(self)@.current == clip && final(self)@.time == 0,
    {
        if clip == self.current {
            proof {
                assert(self.clips@[self.current as int].is_valid());
            }
            let duration = self.clips[self.current].duration_of();
            let step = delta_time % duration;
            let sum: u128 = self.time as u128 + step as u128;
            let wrapped = (sum % (duration as u128)) as u64;
            proof {
                let t = self.time as int;
                let d = duration as int;
                vstd::arithmetic::div_mod::lemma_small_mod(t as nat, d as nat);
                vstd::arithmetic::div_mod::lemma_add_mod_noop(t, delta_time as int, d);
                vstd::arithmetic::div_mod::lemma_mod_bound(t + step, d);
            }
            self.time = wrapped;
        } else {
            proof {
                assert(self.clips@[clip as int].is_valid());
                self.clips@[clip as int].lemma_duration_positive();
            }
            self.time = 0;
            self.current = clip;
        }
    }

    /// The sprite frame shown now, which stays within the current clip's range.
    pub fn get_sprite(&self) -> (r: i32)
        requires
            self@.wf(),
        ensures
            r == self@.frame(),
            self@.clips[self@.current].from_index <= r < self@.clips[self@.current].to_index,
    {
        let clip = self.clips[self.current];
        proof {
            assert(self.clips@[self.current as int].is_valid());
            let n = clip.to_index - clip.from_index;
            assert(clip.timeout * n == n * clip.timeout) by (nonlinear_arith);
            vstd::arithmetic::div_mod::lemma_multiply_divide_lt(
                self.time as int,
                clip.timeout as int,
                n as int,
            );
            assert(clip.timeout * n == n * clip.timeout) by (nonlinear_arith);
            vstd::arithmetic::div_mod::lemma_div_pos_is_pos(self.time as int, clip.timeout as int);
        }
        clip.from_index + (self.time / clip.timeout) as i32
    }

    /// Index of the clip that plays.
    pub fn get_current_animation(&self) -> (r: usize)
        ensures
            r == self@.current,
    {
        self.current
    }

    /// Microseconds spent in the current clip.
    pub fn get_animation_time(&self) -> (r: u64)
        ensures
            r == self@.time,
    {
        self.time
    }

    /// The clip table.
    pub fn get_sprite_animations(&self) -> (r: &Vec<SpriteAnimationMetaData>)
        ensures
            r@ == self@.clips,
    {
        &self.clips
    }
}

} // verus!
