use crate::model::model_utils::{grid_point, grid_to_position, GridPosition, Vector2};
use vstd::prelude::*;

verus! {

/// Sprite of a wolf.
pub const WOLF_SPRITE: i32 = 14;

/// A predator: coming too close to it ends the game.
#[derive(Clone, Copy, Debug)]
pub struct Wolf<T> {
    pub pos: T,
    pub sprite: i32,
}

impl<T> Wolf<T> {
    pub fn new(pos: T) -> (r: Wolf<T>)
        ensures
            r.pos == pos,
            r.sprite == WOLF_SPRITE,
    {
        Wolf { pos, sprite: WOLF_SPRITE }
    }
}

/// The world-space wolf placed where `wolf` lies in a `width` x `height` grid.
pub open spec fn placed_wolf(wolf: Wolf<GridPosition>, width: int, height: int) -> Wolf<Vector2> {
    Wolf { pos: grid_point(wolf.pos, width, height), sprite: WOLF_SPRITE }
}

impl Wolf<GridPosition> {
    /// Places a grid wolf in world space.
    pub fn from(grid_wolf: &Wolf<GridPosition>, width: i32, height: i32) -> (r: Wolf<Vector2>)
        requires
            width > 0,
            height > 0,
        ensures
            r == placed_wolf(*grid_wolf, width as int, height as int),
    {
        let pos = grid_to_position(&grid_wolf.pos, width, height);
        Wolf::new(pos)
    }
}

} // verus!
