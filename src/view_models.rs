use crate::model::model_utils::Vector2;
use crate::model::particle_system::ParticleSystemMetaData;
use vstd::prelude::*;

verus! {

/// The kinds of screen effect.
#[allow(non_camel_case_types)]
#[derive(Clone, Copy, Debug, PartialEq, Eq, Hash, Structural)]
pub enum PostProcessEffects {
    VIGNETTE,
}

/// One sprite to draw: its extent, its centre and its frame on the sprite
/// sheet.
#[derive(Clone, Copy, Debug, PartialEq, Eq, Structural)]
pub struct SpriteRecord {
    pub size: Vector2,
    pub position: Vector2,
    pub tile_map_index: i32,
}

pub open spec fn zero_vector() -> Vector2 {
    Vector2 { x: 0, y: 0 }
}

/// The sprites of a frame in ten slots; the first `count` are meaningful and
/// the rest are zero.
pub struct SpritesViewModel {
    pub sizes: [Vector2; 10],
    pub positions: [Vector2; 10],
    pub tile_map_indices: [i32; 10],
    pub count: i32,
}

impl SpritesViewModel {
    /// The slots hold `sprites`, in order, and zeros after them.
    pub open spec fn shows(&self, sprites: Seq<SpriteRecord>) -> bool {
        &&& self.count == sprites.len()
        &&& forall|i: int| 0 <= i < sprites.len() ==> #[trigger] self.sizes@[i] == sprites[i].size
        &&& forall|i: int|
            0 <= i < sprites.len() ==> #[trigger] self.positions@[i] == sprites[i].position
        &&& forall|i: int|
            0 <= i < sprites.len() ==> #[trigger] self.tile_map_indices@[i]
                == sprites[i].tile_map_index
        &&& forall|i: int| sprites.len() <= i < 10 ==> #[trigger] self.sizes@[i] == zero_vector()
        &&& forall|i: int| sprites.len() <= i < 10 ==> #[trigger] self.positions@[i] == zero_vector()
        &&& forall|i: int| sprites.len() <= i < 10 ==> #[trigger] self.tile_map_indices@[i] == 0
    }

    pub(crate) fn from_records(records: &Vec<SpriteRecord>) -> (r: SpritesViewModel)
        requires
            records.len() <= 10,
        ensures
            r.shows(records@),
    {
        let mut sizes: [Vector2; 10] = [Vector2 { x: 0, y: 0 };10];
        let mut positions: [Vector2; 10] = [Vector2 { x: 0, y: 0 };10];
        let mut tile_map_indices: [i32; 10] = [0;10];
        let mut i: usize = 0;
        while i < records.len()
            invariant
                i <= records.len() <= 10,
                forall|j: int| 0 <= j < i ==> #[trigger] sizes@[j] == records@[j].size,
                forall|j: int| 0 <= j < i ==> #[trigger] positions@[j] == records@[j].position,
                forall|j: int|
                    0 <= j < i ==> #[trigger] tile_map_indices@[j] == records@[j].tile_map_index,
                forall|j: int| i <= j < 10 ==> #[trigger] sizes@[j] == zero_vector(),
                forall|j: int| i <= j < 10 ==> #[trigger] positions@[j] == zero_vector(),
                forall|j: int| i <= j < 10 ==> #[trigger] tile_map_indices@[j] == 0,
            decreases records.len() - i,
        {
            sizes[i] = records[i].size;
            positions[i] = records[i].position;
            tile_map_indices[i] = records[i].tile_map_index;
            i = i + 1;
        }
        SpritesViewModel { sizes, positions, tile_map_indices, count: records.len() as i32 }
    }
}

/// The tile map of a level: tile codes row after row, and the grid size.
pub struct LevelViewModel {
    pub data: Vec<i32>,
    pub width: i32,
    pub height: i32,
}

/// The particle bursts of a frame in ten slots; the first `count` are
/// meaningful and the rest are zero.
pub struct ParticlesViewModel {
    pub positions: [Vector2; 10],
    pub max_speeds: [i64; 10],
    pub running_times: [u64; 10],
    pub max_running_times: [u64; 10],
    pub count: i32,
}

impl ParticlesViewModel {
    /// The slots hold `systems`, in order, and zeros after them.
    pub open spec fn shows(&self, systems: Seq<ParticleSystemMetaData>) -> bool {
        &&& self.count == systems.len()
        &&& forall|i: int|
            0 <= i < systems.len() ==> #[trigger] self.positions@[i] == systems[i].position
        &&& forall|i: int|
            0 <= i < systems.len() ==> #[trigger] self.max_speeds@[i] == systems[i].max_speed
        &&& forall|i: int|
            0 <= i < systems.len() ==> #[trigger] self.running_times@[i] == systems[i].running_time
        &&& forall|i: int|
            0 <= i < systems.len() ==> #[trigger] self.max_running_times@[i]
                == systems[i].max_running_time
        &&& forall|i: int| systems.len() <= i < 10 ==> #[trigger] self.positions@[i] == zero_vector()
        &&& forall|i: int| systems.len() <= i < 10 ==> #[trigger] self.max_speeds@[i] == 0
        &&& forall|i: int| systems.len() <= i < 10 ==> #[trigger] self.running_times@[i] == 0
        &&& forall|i: int| systems.len() <= i < 10 ==> #[trigger] self.max_running_times@[i] == 0
    }

    pub(crate) fn from_systems(systems: &Vec<ParticleSystemMetaData>) -> (r: ParticlesViewModel)
        requires
            systems.len() <= 10,
        ensures
            r.shows(systems@),
    {
        let mut positions: [Vector2; 10] = [Vector2 { x: 0, y: 0 };10];
        let mut max_speeds: [i64; 10] = [0;10];
        let mut running_times: [u64; 10] = [0;10];
        let mut max_running_times: [u64; 10] = [0;10];
        let mut i: usize = 0;
        while i < systems.len()
            invariant
                i <= systems.len() <= 10,
                forall|j: int| 0 <= j < i ==> #[trigger] positions@[j] == systems@[j].position,
                forall|j: int| 0 <= j < i ==> #[trigger] max_speeds@[j] == systems@[j].max_speed,
                forall|j: int|
                    0 <= j < i ==> #[trigger] running_times@[j] == systems@[j].running_time,
                forall|j: int|
                    0 <= j < i ==> #[trigger] max_running_times@[j] == systems@[j].max_running_time,
                forall|j: int| i <= j < 10 ==> #[trigger] positions@[j] == zero_vector(),
                forall|j: int| i <= j < 10 ==> #[trigger] max_speeds@[j] == 0,
                forall|j: int| i <= j < 10 ==> #[trigger] running_times@[j] == 0,
                forall|j: int| i <= j < 10 ==> #[trigger] max_running_times@[j] == 0,
            decreases systems.len() - i,
        {
            let s = systems[i];
            positions[i] = s.position;
            max_speeds[i] = s.max_speed;
            running_times[i] = s.running_time;
            max_running_times[i] = s.max_running_time;
            i = i + 1;
        }
        ParticlesViewModel {
            positions,
            max_speeds,
            running_times,
            max_running_times,
            count: systems.len() as i32,
        }
    }
}

/// One active screen effect, with its timing in microseconds.
#[derive(Clone, Copy, Debug, PartialEq, Eq, Structural)]
pub struct PostProcessEffect {
    pub name: PostProcessEffects,
    pub running_time: u64,
    pub max_running_time: u64,
}

/// The screen effects of a frame.
pub struct PostProcessViewModel {
    pub effects: Vec<PostProcessEffect>,
}

} // verus!
