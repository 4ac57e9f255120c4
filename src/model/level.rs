use crate::model::fox_hole::FoxHole;
use crate::model::model_utils::GridPosition;
use crate::model::wolf::Wolf;
use vstd::prelude::*;

verus! {

/// Slots of every exported sprite, particle and effect table. The bound is
/// kept, not assumed: a level with more sprites than this cannot be loaded, and
/// an effect spawned into a full registry is dropped.
pub const CAPACITY: usize = 10;

/// What a level holds: where the fox starts, the tile grid row by row, and the
/// fox holes and wolves placed on the grid.
pub struct LevelDescription {
    pub start_pos: GridPosition,
    pub rows: Seq<Seq<i32>>,
    pub fox_holes: Seq<FoxHole<GridPosition>>,
    pub wolves: Seq<Wolf<GridPosition>>,
}

/// The tiles of `rows`, row after row.
pub open spec fn flatten(rows: Seq<Seq<i32>>) -> Seq<i32>
    decreases rows.len(),
{
    if rows.len() == 0 {
        Seq::empty()
    } else {
        flatten(rows.drop_last()) + rows.last()
    }
}

impl LevelDescription {
    pub open spec fn width(self) -> int {
        self.rows[0].len() as int
    }

    pub open spec fn height(self) -> int {
        self.rows.len() as int
    }

    /// At least one row and one column, and every row as long as the first.
    pub open spec fn is_rectangular(self) -> bool {
        &&& self.rows.len() > 0
        &&& self.rows[0].len() > 0
        &&& forall|i: int| 0 <= i < self.rows.len() ==> (#[trigger] self.rows[i]).len() == self.rows[0].len()
    }

    /// Sprites the level shows at most: four per fox hole once it is used,
    /// one per wolf, one for the fox.
    pub open spec fn max_sprites(self) -> int {
        4 * self.fox_holes.len() + self.wolves.len() + 1int
    }

    /// A level that can be loaded: rectangular, with dimensions that fit an
    /// `i32`, and no more sprites than the export tables hold.
    pub open spec fn wf(self) -> bool {
        &&& self.is_rectangular()
        &&& self.height() <= i32::MAX
        &&& self.width() <= i32::MAX
        &&& self.max_sprites() <= CAPACITY
    }

    /// The tile codes in row-major order.
    pub open spec fn tiles(self) -> Seq<i32> {
        flatten(self.rows)
    }
}

/// A level as loaded from the level data.
pub struct Level {
    start_pos: GridPosition,
    data: Vec<Vec<i32>>,
    fox_holes: Vec<FoxHole<GridPosition>>,
    wolves: Vec<Wolf<GridPosition>>,
}

pub open spec fn rows_of(data: Seq<Vec<i32>>) -> Seq<Seq<i32>> {
    data.map_values(|r: Vec<i32>| r@)
}

impl View for Level {
    type V = LevelDescription;

    closed spec fn view(&self) -> LevelDescription {
        LevelDescription {
            start_pos: self.start_pos,
            rows: rows_of(self.data@),
            fox_holes: self.fox_holes@,
            wolves: self.wolves@,
        }
    }
}

impl Level {
    pub fn get_start_pos(&self) -> (r: &GridPosition)
        ensures
            *r == self@.start_pos,
    {
        &self.start_pos
    }

    pub fn get_data(&self) -> (r: &Vec<Vec<i32>>)
        ensures
            rows_of(r@) == self@.rows,
    {
        &self.data
    }

    pub fn get_fox_holes(&self) -> (r: &Vec<FoxHole<GridPosition>>)
        ensures
            r@ == self@.fox_holes,
    {
        &self.fox_holes
    }

    pub fn get_wolves(&self) -> (r: &Vec<Wolf<GridPosition>>)
        ensures
            r@ == self@.wolves,
    {
        &self.wolves
    }
}

/// The first level: a 5 x 5 grid with walls at its four inner corners, the fox
/// in the middle, one fox hole from (1, 2) to (2, 1) and a wolf at (2, 4).
pub open spec fn level_0_description() -> LevelDescription {
    LevelDescription {
        start_pos: GridPosition { column: 2, row: 2 },
        rows: seq![
            seq![1i32, 1, 1, 1, 1],
            seq![1i32, 0, 1, 0, 1],
            seq![1i32, 1, 1, 1, 1],
            seq![1i32, 0, 1, 0, 1],
            seq![1i32, 1, 1, 1, 1],
        ],
        fox_holes: seq![
            FoxHole {
                entry: GridPosition { column: 1, row: 2 },
                exit: GridPosition { column: 2, row: 1 },
                used: false,
                entry_sprite: crate::model::fox_hole::HOLE_SPRITE,
                exit_sprite: crate::model::fox_hole::HOLE_SPRITE,
                closed_sprite: crate::model::fox_hole::CLOSED_HOLE_SPRITE,
            },
        ],
        wolves: seq![Wolf { pos: GridPosition { column: 2, row: 4 }, sprite: crate::model::wolf::WOLF_SPRITE }],
    }
}

/// The level data.
pub struct Levels {}

impl Levels {
    pub fn level_0() -> (r: Level)
        ensures
            r@ == level_0_description(),
            r@.wf(),
    {
        let data: Vec<Vec<i32>> = vec![
            vec![1, 1, 1, 1, 1],
            vec![1, 0, 1, 0, 1],
            vec![1, 1, 1, 1, 1],
            vec![1, 0, 1, 0, 1],
            vec![1, 1, 1, 1, 1],
        ];
        let fox_holes = vec![
            FoxHole::new(GridPosition { column: 1, row: 2 }, GridPosition { column: 2, row: 1 }, None),
        ];
        let wolves = vec![Wolf::new(GridPosition { column: 2, row: 4 })];
        let r = Level { start_pos: GridPosition { column: 2, row: 2 }, data, fox_holes, wolves };
        assert(rows_of(r.data@) =~= level_0_description().rows);
        assert(r.fox_holes@ =~= level_0_description().fox_holes);
        assert(r.wolves@ =~= level_0_description().wolves);
        r
    }
}

} // verus!
