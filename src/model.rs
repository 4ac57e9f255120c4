pub mod animation;
pub mod fox;
pub mod fox_hole;
pub mod level;
pub mod lifecycle;
pub mod model_utils;
pub mod particle_system;
pub mod post_process_effect_meta_data;
pub mod wolf;

use crate::input::Action;
use crate::read_only_input::ReadOnlyInput;
use crate::view_models::{
    LevelViewModel, ParticlesViewModel, PostProcessEffect, PostProcessEffects,
    PostProcessViewModel, SpriteRecord, SpritesViewModel,
};
use animation::AnimationState;
use fox::{fox_clips, fox_start_animation, Direction, Fox};
use fox_hole::{placed_hole, FoxHole};
use level::{flatten, level_0_description, Level, LevelDescription, Levels, CAPACITY};
use model_utils::{GridPosition, grid_point, grid_to_position, is_within, within, Vector2, MICROS_PER_SECOND};
use particle_system::ParticleSystemMetaData;
use post_process_effect_meta_data::PostProcessEffectMetaData;
use vstd::prelude::*;
use wolf::{placed_wolf, Wolf};

verus! {

/// Walking speed of the fox: 0.2 units per second, in ticks per second.
pub const PLAYER_SPEED: i64 = 200_000_000;

/// The fox uses a fox hole whose entry is closer than this (0.1 units).
pub const FOX_HOLE_RADIUS: i64 = 100_000_000;

/// A wolf closer than this (0.15 units) catches the fox.
pub const WOLF_RADIUS: i64 = 150_000_000;

/// Side of a sprite (0.2 units).
pub const SPRITE_SIZE: i64 = 200_000_000;

/// Side of the overlay on a used fox hole (0.15 units).
pub const CLOSED_SPRITE_SIZE: i64 = 150_000_000;

/// Growth rate of the burst left at a used fox hole (0.1 units per second).
pub const PARTICLE_MAX_SPEED: i64 = 100_000_000;

/// Lifetime of that burst: three seconds.
pub const PARTICLE_LIFETIME: u64 = 3_000_000;

/// Lifetime of the vignette that a fox hole sets off: one and a half seconds.
pub const VIGNETTE_LIFETIME: u64 = 1_500_000;

/// Everything the world holds at the end of a frame.
pub struct ModelState {
    pub player: Vector2,
    pub animation: AnimationState,
    pub fox_holes: Seq<FoxHole<Vector2>>,
    pub wolves: Seq<Wolf<Vector2>>,
    pub particle_systems: Seq<ParticleSystemMetaData>,
    pub post_process_effects: Seq<PostProcessEffectMetaData>,
    pub alive: bool,
}

/// Every burst in `systems` is still running.
pub open spec fn particles_live(systems: Seq<ParticleSystemMetaData>) -> bool {
    forall|i: int|
        0 <= i < systems.len() ==> (#[trigger] systems[i]).running_time
            < systems[i].max_running_time
}

/// Every screen effect in `effects` is still running.
pub open spec fn effects_live(effects: Seq<PostProcessEffectMetaData>) -> bool {
    forall|i: int|
        0 <= i < effects.len() ==> (#[trigger] effects[i]).running_time
            < effects[i].max_running_time
}

impl ModelState {
    /// The fox animates with its own clips, the sprites fit the export table,
    /// the effect registries stay within capacity, and every effect in them is
    /// still running.
    pub open spec fn wf(self) -> bool {
        &&& self.animation.wf()
        &&& self.animation.clips == fox_clips()
        &&& 4 * self.fox_holes.len() + self.wolves.len() + 1 <= CAPACITY
        &&& self.particle_systems.len() <= CAPACITY
        &&& self.post_process_effects.len() <= CAPACITY
        &&& particles_live(self.particle_systems)
        &&& effects_live(self.post_process_effects)
    }
}

/// A new world: the fox at the origin facing left, nothing else, alive.
pub open spec fn initial_state() -> ModelState {
    ModelState {
        player: Vector2 { x: 0, y: 0 },
        animation: fox_start_animation(),
        fox_holes: Seq::empty(),
        wolves: Seq::empty(),
        particle_systems: Seq::empty(),
        post_process_effects: Seq::empty(),
        alive: true,
    }
}

// ---- the frame update, phase by phase ----

/// Hole `i` qualifies for a fox that stood at `pos` when the frame began: it
/// is open and its entry is within reach of `pos`.
pub open spec fn hole_triggers(pos: Vector2, holes: Seq<FoxHole<Vector2>>, i: int) -> bool {
    !holes[i].used && within(pos, holes[i].entry, FOX_HOLE_RADIUS as int)
}

/// Where the fox stands and which entry it last used once the first `n` fox
/// holes are processed in order, each tested against the start position
/// `pos`: the exit and entry of the last qualifying hole among them, or `pos`
/// and none if no hole qualifies.
pub open spec fn scan_holes(pos: Vector2, holes: Seq<FoxHole<Vector2>>, n: int) -> (
    Vector2,
    Option<Vector2>,
)
    decreases n,
{
    if n <= 0 {
        (pos, None)
    } else if hole_triggers(pos, holes, n - 1) {
        (holes[n - 1].exit, Some(holes[n - 1].entry))
    } else {
        scan_holes(pos, holes, n - 1)
    }
}

/// The holes after the scan: those used in it are marked used.
pub open spec fn holes_after_scan(pos: Vector2, holes: Seq<FoxHole<Vector2>>) -> Seq<
    FoxHole<Vector2>,
> {
    Seq::new(
        holes.len(),
        |i: int| FoxHole { used: holes[i].used || hole_triggers(pos, holes, i), ..holes[i] },
    )
}

/// Fox hole phase: with `Use` asserted, every open hole whose entry is near
/// where the fox stood at the start of the frame closes, all of them, and the
/// fox ends at the exit of the last of them, in order. Also gives that hole's
/// entry, where the effects start.
pub open spec fn use_fox_holes(s: ModelState, use_asserted: bool) -> (ModelState, Option<Vector2>) {
    if use_asserted {
        let scan = scan_holes(s.player, s.fox_holes, s.fox_holes.len() as int);
        (
            ModelState {
                player: scan.0,
                fox_holes: holes_after_scan(s.player, s.fox_holes),
                ..s
            },
            scan.1,
        )
    } else {
        (s, None)
    }
}

/// The direction the fox walks: the first of left, right, down, up that is
/// asserted without its opposite.
pub open spec fn chosen_direction(held: Set<Action>) -> Option<Direction> {
    let left = held.contains(Action::MoveLeft);
    let right = held.contains(Action::MoveRight);
    let down = held.contains(Action::MoveDown);
    let up = held.contains(Action::MoveUp);
    if left && !right {
        Some(Direction::Left)
    } else if right && !left {
        Some(Direction::Right)
    } else if down && !up {
        Some(Direction::Down)
    } else if up && !down {
        Some(Direction::Up)
    } else {
        None
    }
}

/// Ticks walked in `delta_time` microseconds.
pub open spec fn travel(delta_time: int) -> int {
    PLAYER_SPEED * delta_time / (MICROS_PER_SECOND as int)
}

/// `v`, held to the range of `i64`.
pub open spec fn clamp_i64(v: int) -> i64 {
    if v < i64::MIN {
        i64::MIN
    } else if v > i64::MAX {
        i64::MAX
    } else {
        v as i64
    }
}

/// `p` after walking `delta_time` microseconds in direction `d`.
pub open spec fn walked(p: Vector2, d: Direction, delta_time: int) -> Vector2 {
    match d {
        Direction::Left => Vector2 { x: clamp_i64(p.x - travel(delta_time)), ..p },
        Direction::Right => Vector2 { x: clamp_i64(p.x + travel(delta_time)), ..p },
        Direction::Down => Vector2 { y: clamp_i64(p.y - travel(delta_time)), ..p },
        Direction::Up => Vector2 { y: clamp_i64(p.y + travel(delta_time)), ..p },
    }
}

/// Where a fox standing at `p` ends after the movement phase.
pub open spec fn walk_from(p: Vector2, held: Set<Action>, delta_time: int) -> Vector2 {
    match chosen_direction(held) {
        Some(d) => walked(p, d, delta_time),
        None => p,
    }
}

/// Movement phase: the fox walks in the chosen direction, if any, and plays
/// that direction's clip.
pub open spec fn walk(s: ModelState, held: Set<Action>, delta_time: int) -> ModelState {
    match chosen_direction(held) {
        Some(d) => ModelState {
            player: walked(s.player, d, delta_time),
            animation: s.animation.advance(d.clip(), delta_time),
            ..s
        },
        None => s,
    }
}

/// Some wolf is close enough to `pos` to catch the fox.
pub open spec fn wolf_near(pos: Vector2, wolves: Seq<Wolf<Vector2>>) -> bool {
    exists|i: int| 0 <= i < wolves.len() && within(pos, (#[trigger] wolves[i]).pos, WOLF_RADIUS as int)
}

/// Wolf phase: a wolf near the fox ends the game.
pub open spec fn meet_wolves(s: ModelState) -> ModelState {
    ModelState { alive: s.alive && !wolf_near(s.player, s.wolves), ..s }
}

/// `p` aged by `delta_time` microseconds.
pub open spec fn aged_particle(p: ParticleSystemMetaData, delta_time: u64) -> ParticleSystemMetaData {
    ParticleSystemMetaData { running_time: p.running_time.saturating_add(delta_time), ..p }
}

pub open spec fn aged_effect(e: PostProcessEffectMetaData, delta_time: u64) -> PostProcessEffectMetaData {
    PostProcessEffectMetaData { running_time: e.running_time.saturating_add(delta_time), ..e }
}

/// The bursts of `systems` aged by `delta_time`, without those that ran out,
/// in their order.
pub open spec fn age_particles(systems: Seq<ParticleSystemMetaData>, delta_time: u64) -> Seq<
    ParticleSystemMetaData,
>
    decreases systems.len(),
{
    if systems.len() == 0 {
        Seq::empty()
    } else {
        let rest = age_particles(systems.drop_last(), delta_time);
        let p = aged_particle(systems.last(), delta_time);
        if p.running_time < p.max_running_time {
            rest.push(p)
        } else {
            rest
        }
    }
}

/// The screen effects of `effects` aged by `delta_time`, without those that
/// ran out, in their order.
pub open spec fn age_effects(effects: Seq<PostProcessEffectMetaData>, delta_time: u64) -> Seq<
    PostProcessEffectMetaData,
>
    decreases effects.len(),
{
    if effects.len() == 0 {
        Seq::empty()
    } else {
        let rest = age_effects(effects.drop_last(), delta_time);
        let e = aged_effect(effects.last(), delta_time);
        if e.running_time < e.max_running_time {
            rest.push(e)
        } else {
            rest
        }
    }
}

/// Aging phase for both registries.
pub open spec fn age(s: ModelState, delta_time: u64) -> ModelState {
    ModelState {
        particle_systems: age_particles(s.particle_systems, delta_time),
        post_process_effects: age_effects(s.post_process_effects, delta_time),
        ..s
    }
}

/// The burst that a fox hole used at `entry` sets off.
pub open spec fn entry_burst(entry: Vector2) -> ParticleSystemMetaData {
    ParticleSystemMetaData {
        position: entry,
        max_speed: PARTICLE_MAX_SPEED,
        running_time: 0,
        max_running_time: PARTICLE_LIFETIME,
    }
}

/// The vignette that a fox hole sets off.
pub open spec fn entry_vignette() -> PostProcessEffectMetaData {
    PostProcessEffectMetaData {
        name: PostProcessEffects::VIGNETTE,
        running_time: 0,
        max_running_time: VIGNETTE_LIFETIME,
    }
}

/// Spawn phase: a fox hole used this frame adds a burst at its entry and a
/// vignette, each where its registry has room. They start at time 0: this
/// frame's time does not age them.
pub open spec fn spawn_effects(s: ModelState, origin: Option<Vector2>) -> ModelState {
    match origin {
        Some(entry) => ModelState {
            particle_systems: add_burst(s.particle_systems, entry),
            post_process_effects: add_vignette(s.post_process_effects),
            ..s
        },
        None => s,
    }
}

/// `systems` with a burst at `entry` appended, where there is room.
pub open spec fn add_burst(systems: Seq<ParticleSystemMetaData>, entry: Vector2) -> Seq<
    ParticleSystemMetaData,
> {
    if systems.len() < CAPACITY {
        systems.push(entry_burst(entry))
    } else {
        systems
    }
}

/// `effects` with a vignette appended, where there is room.
pub open spec fn add_vignette(effects: Seq<PostProcessEffectMetaData>) -> Seq<
    PostProcessEffectMetaData,
> {
    if effects.len() < CAPACITY {
        effects.push(entry_vignette())
    } else {
        effects
    }
}

/// A frame in `s` with the actions `held` asserted uses a fox hole, so a
/// burst and a vignette are due.
pub open spec fn effects_due(s: ModelState, held: Set<Action>) -> bool {
    s.alive && held.contains(Action::Use) && use_fox_holes(s, true).1 is Some
}

/// One frame with the actions `held` asserted and `delta_time` microseconds
/// elapsed. Nothing changes once the fox is caught; otherwise fox holes, then
/// movement, then wolves, then aging, then the new effects.
pub open spec fn step(s: ModelState, held: Set<Action>, delta_time: u64) -> ModelState {
    if !s.alive {
        s
    } else {
        let (t, origin) = use_fox_holes(s, held.contains(Action::Use));
        let moved = walk(t, held, delta_time as int);
        let met = meet_wolves(moved);
        spawn_effects(age(met, delta_time), origin)
    }
}

/// The world with `level` loaded: the fox on the start tile, and the level's
/// fox holes (open) and wolves placed in world space. The effects and the
/// latch stay as they were.
pub open spec fn loaded(s: ModelState, level: LevelDescription) -> ModelState {
    let width = level.width();
    let height = level.height();
    ModelState {
        player: grid_point(level.start_pos, width, height),
        fox_holes: level.fox_holes.map_values(
            |h: FoxHole<GridPosition>| placed_hole(h, width, height),
        ),
        wolves: level.wolves.map_values(|w: Wolf<GridPosition>| placed_wolf(w, width, height)),
        ..s
    }
}

/// The message of the error for an unknown level code.
pub open spec fn level_not_found() -> Seq<char> {
    "Level not found"@
}

/// A sprite of side `size` at `position` showing frame `index`.
pub open spec fn sprite(size: i64, position: Vector2, index: i32) -> SpriteRecord {
    SpriteRecord { size: Vector2 { x: size, y: size }, position, tile_map_index: index }
}

/// The sprites of one fox hole: both ends, and over them the closed overlay
/// once it is used.
pub open spec fn hole_sprites(h: FoxHole<Vector2>) -> Seq<SpriteRecord> {
    let ends = seq![sprite(SPRITE_SIZE, h.entry, h.entry_sprite), sprite(SPRITE_SIZE, h.exit, h.exit_sprite)];
    if h.used {
        ends + seq![
            sprite(CLOSED_SPRITE_SIZE, h.entry, h.closed_sprite),
            sprite(CLOSED_SPRITE_SIZE, h.exit, h.closed_sprite),
        ]
    } else {
        ends
    }
}

/// The sprites of `holes`, hole after hole.
pub open spec fn holes_sprites(holes: Seq<FoxHole<Vector2>>) -> Seq<SpriteRecord>
    decreases holes.len(),
{
    if holes.len() == 0 {
        Seq::empty()
    } else {
        holes_sprites(holes.drop_last()) + hole_sprites(holes.last())
    }
}

pub open spec fn wolf_sprite(w: Wolf<Vector2>) -> SpriteRecord {
    sprite(SPRITE_SIZE, w.pos, w.sprite)
}

/// Everything drawn in a frame, in drawing order: the fox holes, the wolves,
/// and last the fox at its current frame.
pub open spec fn sprite_records(s: ModelState) -> Seq<SpriteRecord> {
    holes_sprites(s.fox_holes) + s.wolves.map_values(|w: Wolf<Vector2>| wolf_sprite(w)) + seq![
        sprite(SPRITE_SIZE, s.player, s.animation.frame() as i32),
    ]
}

/// The export record of a screen effect.
pub open spec fn effect_record(e: PostProcessEffectMetaData) -> PostProcessEffect {
    PostProcessEffect {
        name: e.name,
        running_time: e.running_time,
        max_running_time: e.max_running_time,
    }
}

/// A fox hole shows at most four sprites.
pub proof fn lemma_holes_sprites_len(holes: Seq<FoxHole<Vector2>>)
    ensures
        holes_sprites(holes).len() <= 4 * holes.len(),
    decreases holes.len(),
{
    if holes.len() > 0 {
        lemma_holes_sprites_len(holes.drop_last());
    }
}

/// The authoritative world state.
pub struct Model {
    player: Fox,
    fox_holes: Vec<FoxHole<Vector2>>,
    wolves: Vec<Wolf<Vector2>>,
    particle_systems: Vec<ParticleSystemMetaData>,
    post_process_effects: Vec<PostProcessEffectMetaData>,
    alive: bool,
}

impl View for Model {
    type V = ModelState;

    closed spec fn view(&self) -> ModelState {
        ModelState {
            player: self.player.pos,
            animation: self.player.animation@,
            fox_holes: self.fox_holes@,
            wolves: self.wolves@,
            particle_systems: self.particle_systems@,
            post_process_effects: self.post_process_effects@,
            alive: self.alive,
        }
    }
}

impl Model {
    /// A new world, before any level is loaded.
    pub fn new() -> (r: Result<Model, String>)
        ensures
            r is Ok,
            r->Ok_0@ == initial_state(),
            r->Ok_0@.wf(),
    {
        Ok(
            Model {
                player: Fox::new(Vector2 { x: 0, y: 0 }),
                fox_holes: Vec::new(),
                wolves: Vec::new(),
                particle_systems: Vec::new(),
                post_process_effects: Vec::new(),
                alive: true,
            },
        )
    }

    /// Loads level `level_code`. Only level 0 exists: any other code is
    /// refused with "Level not found" and changes nothing.
    pub fn load_level(&mut self, level_code: u8) -> (r: Result<LevelViewModel, String>)
        requires
            old(self)@.wf(),
        ensures
            final(self)@.wf(),
            level_code != 0 ==> r is Err && r->Err_0@ == level_not_found() && final(self)@ == old(
                self,
            )@,
            level_code == 0 ==> {
                &&& r is Ok
                &&& final(self)@ == loaded(old(self)@, level_0_description())
                &&& r->Ok_0.data@ == level_0_description().tiles()
                &&& r->Ok_0.width == level_0_description().width()
                &&& r->Ok_0.height == level_0_description().height()
            },
    {
        if level_code != 0 {
            let message = "Level not found".to_string();
            proof {
                vstd::string::to_string_from_display_ensures_for_str("Level not found", message);
            }
            return Err(message);
        }
        let level = Levels::level_0();
        Ok(self.load(&level))
    }

    fn load(&mut self, level: &Level) -> (r: LevelViewModel)
        requires
            old(self)@.wf(),
            level@.wf(),
        ensures
            final(self)@ == loaded(old(self)@, level@),
            final(self)@.wf(),
            r.data@ == level@.tiles(),
            r.width == level@.width(),
            r.height == level@.height(),
    {
        let ghost lv = level@;
        let data = level.get_data();
        let check_width = data[0].len();
        let width = check_width as i32;
        let height = data.len() as i32;
        let mut flat_map: Vec<i32> = Vec::new();
        let mut r: usize = 0;
        while r < data.len()
            invariant
                r <= data@.len(),
                lv == level@,
                lv.wf(),
                level::rows_of(data@) == lv.rows,
                check_width == lv.width(),
                flat_map@ == flatten(lv.rows.subrange(0, r as int)),
            decreases data@.len() - r,
        {
            let row = &data[r];
            assert(row@ == lv.rows[r as int]);
            assert(row.len() == check_width);
            let mut c: usize = 0;
            while c < row.len()
                invariant
                    c <= row@.len(),
                    r < data@.len(),
                    flat_map@ == flatten(lv.rows.subrange(0, r as int)) + row@.subrange(0, c as int),
                decreases row@.len() - c,
            {
                flat_map.push(row[c]);
                proof {
                    assert(row@.subrange(0, c + 1) =~= row@.subrange(0, c as int).push(row@[c as int]));
                }
                c = c + 1;
            }
            proof {
                let next = lv.rows.subrange(0, r + 1);
                assert(next.drop_last() =~= lv.rows.subrange(0, r as int));
                assert(row@.subrange(0, c as int) =~= row@);
                assert(next.last() == row@);
            }
            r = r + 1;
        }
        assert(lv.rows.subrange(0, r as int) =~= lv.rows);
        self.player.pos = grid_to_position(level.get_start_pos(), width, height);
        let holes = level.get_fox_holes();
        let mut fox_holes: Vec<FoxHole<Vector2>> = Vec::new();
        let mut i: usize = 0;
        while i < holes.len()
            invariant
                i <= holes@.len(),
                holes@ == lv.fox_holes,
                width == lv.width(),
                height == lv.height(),
                width > 0,
                height > 0,
                fox_holes@.len() == i,
                forall|j: int|
                    0 <= j < i ==> #[trigger] fox_holes@[j] == placed_hole(
                        lv.fox_holes[j],
                        width as int,
                        height as int,
                    ),
            decreases holes@.len() - i,
        {
            fox_holes.push(FoxHole::from(&holes[i], width, height));
            i = i + 1;
        }
        let pack = level.get_wolves();
        let mut wolves: Vec<Wolf<Vector2>> = Vec::new();
        let mut k: usize = 0;
        while k < pack.len()
            invariant
                k <= pack@.len(),
                pack@ == lv.wolves,
                width == lv.width(),
                height == lv.height(),
                width > 0,
                height > 0,
                wolves@.len() == k,
                forall|j: int|
                    0 <= j < k ==> #[trigger] wolves@[j] == placed_wolf(
                        lv.wolves[j],
                        width as int,
                        height as int,
                    ),
            decreases pack@.len() - k,
        {
            wolves.push(Wolf::from(&pack[k], width, height));
            k = k + 1;
        }
        self.fox_holes = fox_holes;
        self.wolves = wolves;
        assert(self@.fox_holes =~= loaded(old(self)@, lv).fox_holes);
        assert(self@.wolves =~= loaded(old(self)@, lv).wolves);
        LevelViewModel { data: flat_map, width, height }
    }

    /// The sprites to draw this frame.
    pub fn to_sprites_view_model(&self) -> (r: SpritesViewModel)
        requires
            self@.wf(),
        ensures
            r.shows(sprite_records(self@)),
    {
        let ghost s = self@;
        let mut records: Vec<SpriteRecord> = Vec::new();
        let mut i: usize = 0;
        while i < self.fox_holes.len()
            invariant
                i <= s.fox_holes.len(),
                s == self@,
                records@ == holes_sprites(s.fox_holes.subrange(0, i as int)),
            decreases s.fox_holes.len() - i,
        {
            let hole = self.fox_holes[i];
            let size = Vector2 { x: SPRITE_SIZE, y: SPRITE_SIZE };
            records.push(SpriteRecord { size, position: hole.entry, tile_map_index: hole.entry_sprite });
            records.push(SpriteRecord { size, position: hole.exit, tile_map_index: hole.exit_sprite });
            if hole.used {
                let closed = Vector2 { x: CLOSED_SPRITE_SIZE, y: CLOSED_SPRITE_SIZE };
                records.push(
                    SpriteRecord { size: closed, position: hole.entry, tile_map_index: hole.closed_sprite },
                );
                records.push(
                    SpriteRecord { size: closed, position: hole.exit, tile_map_index: hole.closed_sprite },
                );
            }
            proof {
                let next = s.fox_holes.subrange(0, i + 1);
                assert(next.drop_last() =~= s.fox_holes.subrange(0, i as int));
                assert(next.last() == hole);
                assert(records@ =~= holes_sprites(next));
            }
            i = i + 1;
        }
        assert(s.fox_holes.subrange(0, i as int) =~= s.fox_holes);
        let ghost hole_part = records@;
        let mut k: usize = 0;
        while k < self.wolves.len()
            invariant
                k <= s.wolves.len(),
                s == self@,
                records@ == hole_part + s.wolves.subrange(0, k as int).map_values(
                    |w: Wolf<Vector2>| wolf_sprite(w),
                ),
            decreases s.wolves.len() - k,
        {
            let wolf = self.wolves[k];
            records.push(
                SpriteRecord {
                    size: Vector2 { x: SPRITE_SIZE, y: SPRITE_SIZE },
                    position: wolf.pos,
                    tile_map_index: wolf.sprite,
                },
            );
            proof {
                assert(s.wolves.subrange(0, k + 1).map_values(|w: Wolf<Vector2>| wolf_sprite(w))
                    =~= s.wolves.subrange(0, k as int).map_values(|w: Wolf<Vector2>| wolf_sprite(w)).push(
                    wolf_sprite(wolf),
                ));
            }
            k = k + 1;
        }
        assert(s.wolves.subrange(0, k as int) =~= s.wolves);
        let frame = self.player.get_sprite();
        records.push(
            SpriteRecord {
                size: Vector2 { x: SPRITE_SIZE, y: SPRITE_SIZE },
                position: self.player.pos,
                tile_map_index: frame,
            },
        );
        proof {
            lemma_holes_sprites_len(s.fox_holes);
            assert(records@ =~= sprite_records(s));
        }
        SpritesViewModel::from_records(&records)
    }

    /// The particle bursts to draw this frame.
    pub fn to_particles_view_model(&self) -> (r: ParticlesViewModel)
        requires
            self@.wf(),
        ensures
            r.shows(self@.particle_systems),
    {
        ParticlesViewModel::from_systems(&self.particle_systems)
    }

    /// The screen effects to apply this frame.
    pub fn to_post_process_view_model(&self) -> (r: PostProcessViewModel)
        ensures
            r.effects@ == self@.post_process_effects.map_values(
                |e: PostProcessEffectMetaData| effect_record(e),
            ),
    {
        let mut post_process_effects: Vec<PostProcessEffect> = Vec::new();
        let mut i: usize = 0;
        while i < self.post_process_effects.len()
            invariant
                i <= self.post_process_effects@.len(),
                post_process_effects@.len() == i,
                forall|j: int|
                    0 <= j < i ==> #[trigger] post_process_effects@[j] == effect_record(
                        self.post_process_effects@[j],
                    ),
            decreases self.post_process_effects@.len() - i,
        {
            let effect = self.post_process_effects[i];
            post_process_effects.push(
                PostProcessEffect {
                    name: effect.name,
                    running_time: effect.running_time,
                    max_running_time: effect.max_running_time,
                },
            );
            i = i + 1;
        }
        assert(post_process_effects@ =~= self@.post_process_effects.map_values(
            |e: PostProcessEffectMetaData| effect_record(e),
        ));
        PostProcessViewModel { effects: post_process_effects }
    }

    fn check_fox_hole_usage(&mut self, input: &ReadOnlyInput) -> (origin: Option<Vector2>)
        requires
            input.wf(),
        ensures
            (final(self)@, origin) == use_fox_holes(old(self)@, input.asserted(Action::Use)),
            final(self).player.animation == old(self).player.animation,
    {
        let use_asserted = input.is_input_down(Action::Use) || input.is_input_pressed(Action::Use);
        let mut origin: Option<Vector2> = None;
        if use_asserted {
            let start = self.player.pos;
            let ghost s0 = self@;
            let ghost after = holes_after_scan(s0.player, s0.fox_holes);
            let mut i: usize = 0;
            while i < self.fox_holes.len()
                invariant
                    0 <= i <= s0.fox_holes.len(),
                    self.fox_holes@.len() == s0.fox_holes.len(),
                    (self.player.pos, origin) == scan_holes(s0.player, s0.fox_holes, i as int),
                    forall|j: int| 0 <= j < i ==> #[trigger] self.fox_holes@[j] == after[j],
                    forall|j: int|
                        i <= j < s0.fox_holes.len() ==> #[trigger] self.fox_holes@[j]
                            == s0.fox_holes[j],
                    self@ == (ModelState { player: self.player.pos, fox_holes: self.fox_holes@, ..s0 }),
                    self.player.animation == old(self).player.animation,
                    after == holes_after_scan(s0.player, s0.fox_holes),
                    start == s0.player,
                decreases s0.fox_holes.len() - i,
            {
                let hole = self.fox_holes[i];
                if !hole.used && is_within(&start, &hole.entry, FOX_HOLE_RADIUS) {
                    self.player.pos = hole.exit;
                    self.fox_holes.set(i, FoxHole { used: true, ..hole });
                    origin = Some(hole.entry);
                } else {
                }
                i = i + 1;
            }
            assert(self.fox_holes@ =~= after);
        }
        origin
    }

    fn move_player(&mut self, input: &ReadOnlyInput, delta_time: u64)
        requires
            old(self)@.wf(),
            input.wf(),
        ensures
            final(self)@ == walk(old(self)@, input.asserted_actions(), delta_time as int),
    {
        let move_left = input.is_input_down(Action::MoveLeft) || input.is_input_pressed(
            Action::MoveLeft,
        );
        let move_right = input.is_input_down(Action::MoveRight) || input.is_input_pressed(
            Action::MoveRight,
        );
        let move_down = input.is_input_down(Action::MoveDown) || input.is_input_pressed(
            Action::MoveDown,
        );
        let move_up = input.is_input_down(Action::MoveUp) || input.is_input_pressed(Action::MoveUp);
        proof {
            assert(PLAYER_SPEED * delta_time <= 200_000_000 * 18_446_744_073_709_551_615int)
                by (nonlinear_arith)
                requires
                    0 <= delta_time <= 18_446_744_073_709_551_615int,
            ;
        }
        let distance: i128 = (PLAYER_SPEED as i128) * (delta_time as i128) / (
        MICROS_PER_SECOND as i128);
        assert(distance == travel(delta_time as int));
        if move_left && !move_right {
            self.player.pos.x = shifted(self.player.pos.x, -distance);
            self.player.update_animation(Direction::Left, delta_time);
        } else if move_right && !move_left {
            self.player.pos.x = shifted(self.player.pos.x, distance);
            self.player.update_animation(Direction::Right, delta_time);
        } else if move_down && !move_up {
            self.player.pos.y = shifted(self.player.pos.y, -distance);
            self.player.update_animation(Direction::Down, delta_time);
        } else if move_up && !move_down {
            self.player.pos.y = shifted(self.player.pos.y, distance);
            self.player.update_animation(Direction::Up, delta_time);
        }
    }

    fn check_wolves(&mut self)
        ensures
            final(self)@ == meet_wolves(old(self)@),
    {
        let ghost s0 = self@;
        let mut i: usize = 0;
        while i < self.wolves.len()
            invariant
                0 <= i <= s0.wolves.len(),
                self@ == (ModelState { alive: self.alive, ..s0 }),
                self.alive == (s0.alive && !(exists|j: int|
                    0 <= j < i && within(s0.player, (#[trigger] s0.wolves[j]).pos, WOLF_RADIUS as int))),
            decreases s0.wolves.len() - i,
        {
            if is_within(&self.player.pos, &self.wolves[i].pos, WOLF_RADIUS) {
                self.alive = false;
            }
            i = i + 1;
        }
    }

    fn update_particle_systems(&mut self, delta_time: u64)
        ensures
            final(self)@ == (ModelState {
                particle_systems: age_particles(old(self)@.particle_systems, delta_time),
                ..old(self)@
            }),
    {
        let ghost s0 = self@;
        let mut kept: Vec<ParticleSystemMetaData> = Vec::new();
        let mut i: usize = 0;
        while i < self.particle_systems.len()
            invariant
                0 <= i <= s0.particle_systems.len(),
                self@ == s0,
                kept@ == age_particles(s0.particle_systems.subrange(0, i as int), delta_time),
            decreases s0.particle_systems.len() - i,
        {
            let system = self.particle_systems[i];
            let aged = ParticleSystemMetaData {
                running_time: system.running_time.saturating_add(delta_time),
                ..system
            };
            if aged.running_time < aged.max_running_time {
                kept.push(aged);
            }
            proof {
                let prefix = s0.particle_systems.subrange(0, i + 1);
                assert(prefix.drop_last() =~= s0.particle_systems.subrange(0, i as int));
                assert(prefix.last() == system);
            }
            i = i + 1;
        }
        assert(s0.particle_systems.subrange(0, i as int) =~= s0.particle_systems);
        self.particle_systems = kept;
    }

    fn update_post_process_effects(&mut self, delta_time: u64)
        ensures
            final(self)@ == (ModelState {
                post_process_effects: age_effects(old(self)@.post_process_effects, delta_time),
                ..old(self)@
            }),
    {
        let ghost s0 = self@;
        let mut kept: Vec<PostProcessEffectMetaData> = Vec::new();
        let mut i: usize = 0;
        while i < self.post_process_effects.len()
            invariant
                0 <= i <= s0.post_process_effects.len(),
                self@ == s0,
                kept@ == age_effects(s0.post_process_effects.subrange(0, i as int), delta_time),
            decreases s0.post_process_effects.len() - i,
        {
            let effect = self.post_process_effects[i];
            let aged = PostProcessEffectMetaData {
                running_time: effect.running_time.saturating_add(delta_time),
                ..effect
            };
            if aged.running_time < aged.max_running_time {
                kept.push(aged);
            }
            proof {
                let prefix = s0.post_process_effects.subrange(0, i + 1);
                assert(prefix.drop_last() =~= s0.post_process_effects.subrange(0, i as int));
                assert(prefix.last() == effect);
            }
            i = i + 1;
        }
        assert(s0.post_process_effects.subrange(0, i as int) =~= s0.post_process_effects);
        self.post_process_effects = kept;
    }

    fn spawn_fox_hole_entry_particle_system(&mut self, start_position: Vector2)
        ensures
            final(self)@ == (ModelState {
                particle_systems: add_burst(old(self)@.particle_systems, start_position),
                ..old(self)@
            }),
    {
        if self.particle_systems.len() < CAPACITY {
            self.particle_systems.push(
                ParticleSystemMetaData {
                    position: start_position,
                    max_speed: PARTICLE_MAX_SPEED,
                    running_time: 0,
                    max_running_time: PARTICLE_LIFETIME,
                },
            );
        }
    }

    fn spawn_fox_hole_entry_post_process_effect(&mut self)
        ensures
            final(self)@ == (ModelState {
                post_process_effects: add_vignette(old(self)@.post_process_effects),
                ..old(self)@
            }),
    {
        if self.post_process_effects.len() < CAPACITY {
            self.post_process_effects.push(
                PostProcessEffectMetaData {
                    name: PostProcessEffects::VIGNETTE,
                    running_time: 0,
                    max_running_time: VIGNETTE_LIFETIME,
                },
            );
        }
    }

    /// Runs one frame: `input` tells which actions are asserted and
    /// `delta_time` is the time since the last frame, in microseconds.
    ///
    /// The registries hold at most `CAPACITY` entries. When a fox hole is used
    /// and a registry is still full after aging, the new burst or vignette is
    /// dropped: that registry is exactly the aged one.
    pub fn update(&mut self, input: ReadOnlyInput, delta_time: u64)
        requires
            old(self)@.wf(),
            input.wf(),
        ensures
            final(self)@ == step(old(self)@, input.asserted_actions(), delta_time),
            final(self)@.wf(),
            effects_due(old(self)@, input.asserted_actions()) ==> {
                let aged = age_particles(old(self)@.particle_systems, delta_time);
                let entry = use_fox_holes(old(self)@, true).1->Some_0;
                &&& aged.len() < CAPACITY ==> final(self)@.particle_systems == aged.push(
                    entry_burst(entry),
                )
                &&& aged.len() >= CAPACITY ==> final(self)@.particle_systems == aged
            },
            effects_due(old(self)@, input.asserted_actions()) ==> {
                let aged = age_effects(old(self)@.post_process_effects, delta_time);
                &&& aged.len() < CAPACITY ==> final(self)@.post_process_effects == aged.push(
                    entry_vignette(),
                )
                &&& aged.len() >= CAPACITY ==> final(self)@.post_process_effects == aged
            },
    {
        proof {
            lemma_step_wf(self@, input.asserted_actions(), delta_time);
        }
        if self.alive {
            let origin = self.check_fox_hole_usage(&input);
            self.move_player(&input, delta_time);
            self.check_wolves();
            self.update_particle_systems(delta_time);
            self.update_post_process_effects(delta_time);
            if let Some(pos) = origin {
                self.spawn_fox_hole_entry_particle_system(pos);
                self.spawn_fox_hole_entry_post_process_effect();
            }
        }
    }

    /// The player.
    pub fn get_player(&self) -> (r: &Fox)
        ensures
            r.pos == self@.player,
            r.animation@ == self@.animation,
    {
        &self.player
    }

    /// Where the player stands.
    pub fn player_position(&self) -> (r: Vector2)
        ensures
            r == self@.player,
    {
        self.player.pos
    }

    /// Whether the fox is still free; false for good once a wolf caught it.
    pub fn is_alive(&self) -> (r: bool)
        ensures
            r == self@.alive,
    {
        self.alive
    }

    /// The fox holes of the level, in order.
    pub fn get_fox_holes(&self) -> (r: &Vec<FoxHole<Vector2>>)
        ensures
            r@ == self@.fox_holes,
    {
        &self.fox_holes
    }
}

/// `v` moved by `d`, held to the range of `i64`.
fn shifted(v: i64, d: i128) -> (r: i64)
    requires
        -0x1_0000_0000_0000_0000_0000_0000_0000 < d < 0x1_0000_0000_0000_0000_0000_0000_0000,
    ensures
        r == clamp_i64(v + d),
{
    let t: i128 = v as i128 + d;
    if t < i64::MIN as i128 {
        i64::MIN
    } else if t > i64::MAX as i128 {
        i64::MAX
    } else {
        t as i64
    }
}

/// Aging keeps no more bursts than it had, and only running ones.
pub proof fn lemma_age_particles(systems: Seq<ParticleSystemMetaData>, delta_time: u64)
    ensures
        age_particles(systems, delta_time).len() <= systems.len(),
        particles_live(age_particles(systems, delta_time)),
    decreases systems.len(),
{
    if systems.len() > 0 {
        lemma_age_particles(systems.drop_last(), delta_time);
    }
}

/// Aging keeps no more screen effects than it had, and only running ones.
pub proof fn lemma_age_effects(effects: Seq<PostProcessEffectMetaData>, delta_time: u64)
    ensures
        age_effects(effects, delta_time).len() <= effects.len(),
        effects_live(age_effects(effects, delta_time)),
    decreases effects.len(),
{
    if effects.len() > 0 {
        lemma_age_effects(effects.drop_last(), delta_time);
    }
}

/// A frame keeps the world well formed.
pub proof fn lemma_step_wf(s: ModelState, held: Set<Action>, delta_time: u64)
    requires
        s.wf(),
    ensures
        step(s, held, delta_time).wf(),
{
    if s.alive {
        let (t, origin) = use_fox_holes(s, held.contains(Action::Use));
        assert(t.fox_holes.len() == s.fox_holes.len());
        let moved = walk(t, held, delta_time as int);
        if let Some(d) = chosen_direction(held) {
            s.animation.lemma_advance_wf(d.clip(), delta_time as int);
        }
        let met = meet_wolves(moved);
        lemma_age_particles(met.particle_systems, delta_time);
        lemma_age_effects(met.post_process_effects, delta_time);
        let aged = age(met, delta_time);
        let r = spawn_effects(aged, origin);
        assert(particles_live(r.particle_systems));
        assert(effects_live(r.post_process_effects));
    }
}

} // verus!
