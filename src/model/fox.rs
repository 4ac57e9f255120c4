use crate::model::animation::{AnimationState, SpriteAnimation, SpriteAnimationMetaData};
use crate::model::model_utils::Vector2;
use vstd::prelude::*;

verus! {

/// A direction of movement; each has its own walk clip.
#[derive(Clone, Copy, Debug, PartialEq, Eq, Structural)]
pub enum Direction {
    Left,
    Right,
    Down,
    Up,
}

impl Direction {
    /// Index of the direction's clip in the fox's clip table.
    pub open spec fn clip(self) -> int {
        match self {
            Direction::Left => 0,
            Direction::Right => 1,
            Direction::Down => 2,
            Direction::Up => 3,
        }
    }

    pub fn clip_index(self) -> (r: usize)
        ensures
            r == self.clip(),
    {
        match self {
            Direction::Left => 0,
            Direction::Right => 1,
            Direction::Down => 2,
            Direction::Up => 3,
        }
    }
}

/// Time each walk frame is shown: a tenth of a second, in microseconds.
pub const FRAME_TIME: u64 = 100_000;

/// The fox's walk clips, in the order of `Direction::clip`: left on frames
/// 3..6, right on 6..9, down on 0..3 and up on 9..12.
pub open spec fn fox_clips() -> Seq<SpriteAnimationMetaData> {
    seq![
        SpriteAnimationMetaData { from_index: 3, to_index: 6, timeout: FRAME_TIME },
        SpriteAnimationMetaData { from_index: 6, to_index: 9, timeout: FRAME_TIME },
        SpriteAnimationMetaData { from_index: 0, to_index: 3, timeout: FRAME_TIME },
        SpriteAnimationMetaData { from_index: 9, to_index: 12, timeout: FRAME_TIME },
    ]
}

/// The animation a new fox starts with: facing left, at time 0.
pub open spec fn fox_start_animation() -> AnimationState {
    AnimationState { clips: fox_clips(), current: Direction::Left.clip(), time: 0 }
}

/// The player.
pub struct Fox {
    pub pos: Vector2,
    pub animation: SpriteAnimation,
}

impl Fox {
    /// The animation is well formed and plays the fox's own clips.
    pub open spec fn wf(&self) -> bool {
        &&& self.animation@.wf()
        &&& self.animation@.clips == fox_clips()
    }

    pub fn new(pos: Vector2) -> (r: Fox)
        ensures
            r.pos == pos,
            r.animation@ == fox_start_animation(),
            r.wf(),
    {
        let mut clips: Vec<SpriteAnimationMetaData> = Vec::new();
        clips.push(SpriteAnimationMetaData { from_index: 3, to_index: 6, timeout: FRAME_TIME });
        clips.push(SpriteAnimationMetaData { from_index: 6, to_index: 9, timeout: FRAME_TIME });
        clips.push(SpriteAnimationMetaData { from_index: 0, to_index: 3, timeout: FRAME_TIME });
        clips.push(SpriteAnimationMetaData { from_index: 9, to_index: 12, timeout: FRAME_TIME });
        assert(clips@ =~= fox_clips());
        assert forall|i: int| 0 <= i < clips.len() implies (#[trigger] clips@[i]).is_valid() by {
            assert(0 <= i < 4);
        }
        let animation = SpriteAnimation::new(clips, Direction::Left.clip_index());
        Fox { pos, animation }
    }

    /// Plays the walk clip of `direction` for `delta_time` microseconds.
    pub fn update_animation(&mut self, direction: Direction, delta_time: u64)
        requires
            old(self).wf(),
        ensures
            final(self).pos == old(self).pos,
            final(self).animation@ == old(self).animation@.advance(
                direction.clip(),
                delta_time as int,
            ),
            final(self).wf(),
    {
        self.animation.update_animation(direction.clip_index(), delta_time);
    }

    /// The sprite frame the fox shows now.
    pub fn get_sprite(&self) -> (r: i32)
        requires
            self.wf(),
        ensures
            r == self.animation@.frame(),
    {
        self.animation.get_sprite()
    }
}

} // verus!
