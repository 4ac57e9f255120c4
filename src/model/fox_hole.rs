use crate::model::model_utils::{grid_point, grid_to_position, GridPosition, Vector2};
use vstd::prelude::*;

verus! {

/// Sprite of an open fox hole.
pub const HOLE_SPRITE: i32 = 12;

/// Sprite laid over both ends of a used fox hole.
pub const CLOSED_HOLE_SPRITE: i32 = 13;

/// A one-shot pair of holes: entering at `entry` takes the fox to `exit`,
/// after which the pair is `used` for good.
#[derive(Clone, Copy, Debug)]
pub struct FoxHole<T> {
    pub entry: T,
    pub exit: T,
    pub used: bool,
    pub entry_sprite: i32,
    pub exit_sprite: i32,
    pub closed_sprite: i32,
}

impl<T> FoxHole<T> {
    /// A pair with the standard sprites; `used` defaults to false.
    pub fn new(entry: T, exit: T, used: Option<bool>) -> (r: FoxHole<T>)
        ensures
            r.entry == entry,
            r.exit == exit,
            r.used == (used == Some(true)),
            r.entry_sprite == HOLE_SPRITE,
            r.exit_sprite == HOLE_SPRITE,
            r.closed_sprite == CLOSED_HOLE_SPRITE,
    {
        let used = match used {
            Some(b) => b,
            None => false,
        };
        FoxHole {
            entry,
            exit,
            used,
            entry_sprite: HOLE_SPRITE,
            exit_sprite: HOLE_SPRITE,
            closed_sprite: CLOSED_HOLE_SPRITE,
        }
    }
}

/// The unused world-space pair placed where `hole` lies in a `width` x
/// `height` grid.
pub open spec fn placed_hole(hole: FoxHole<GridPosition>, width: int, height: int) -> FoxHole<
    Vector2,
> {
    FoxHole {
        entry: grid_point(hole.entry, width, height),
        exit: grid_point(hole.exit, width, height),
        used: false,
        entry_sprite: HOLE_SPRITE,
        exit_sprite: HOLE_SPRITE,
        closed_sprite: CLOSED_HOLE_SPRITE,
    }
}

impl FoxHole<GridPosition> {
    /// Places a grid pair in world space, unused.
    pub fn from(grid_hole: &FoxHole<GridPosition>, width: i32, height: i32) -> (r: FoxHole<
        Vector2,
    >)
        requires
            width > 0,
            height > 0,
        ensures
            r == placed_hole(*grid_hole, width as int, height as int),
    {
        let entry_pos = grid_to_position(&grid_hole.entry, width, height);
        let exit_pos = grid_to_position(&grid_hole.exit, width, height);
        FoxHole::new(entry_pos, exit_pos, None)
    }
}

} // verus!
