//! What holds of the world across frames: fox holes close for good, a caught
//! fox stays caught, and spent effects never reach an export.
use crate::input::Action;
use crate::model::fox_hole::FoxHole;
use crate::model::model_utils::{within, Vector2};
use crate::model::{
    age_particles, age_effects, entry_burst, entry_vignette, CAPACITY, walk_from,
    chosen_direction, effect_record, effects_live, hole_triggers, holes_after_scan,
    particles_live, scan_holes, sprite_records, step, use_fox_holes, walk, wolf_near,
    ModelState, FOX_HOLE_RADIUS,
};
use crate::view_models::{ParticlesViewModel, PostProcessViewModel};
use vstd::prelude::*;

verus! {

/// The world after the frames of `frames` in turn, each with its asserted
/// actions and elapsed microseconds.
pub open spec fn run(s: ModelState, frames: Seq<(Set<Action>, u64)>) -> ModelState
    decreases frames.len(),
{
    if frames.len() == 0 {
        s
    } else {
        run(step(s, frames[0].0, frames[0].1), frames.drop_first())
    }
}

/// A fox hole that is used stays as it is through a frame, and no scan uses
/// it again.
pub proof fn lemma_used_hole_stays_used(
    s: ModelState,
    held: Set<Action>,
    delta_time: u64,
    i: int,
)
    requires
        0 <= i < s.fox_holes.len(),
        s.fox_holes[i].used,
    ensures
        !hole_triggers(s.player, s.fox_holes, i),
        step(s, held, delta_time).fox_holes.len() == s.fox_holes.len(),
        step(s, held, delta_time).fox_holes[i] == s.fox_holes[i],
{
    let after = holes_after_scan(s.player, s.fox_holes);
    assert(after[i] == s.fox_holes[i]);
}

/// With `qualifying` the last of the first `n` holes that qualify from `pos`,
/// the scan of those holes leaves the fox at its exit and reports its entry.
pub proof fn lemma_scan_ends_at_last_qualifying(
    pos: Vector2,
    holes: Seq<FoxHole<Vector2>>,
    qualifying: int,
    n: int,
)
    requires
        0 <= qualifying < n <= holes.len(),
        hole_triggers(pos, holes, qualifying),
        forall|j: int| qualifying < j < n ==> !#[trigger] hole_triggers(pos, holes, j),
    ensures
        scan_holes(pos, holes, n) == (holes[qualifying].exit, Some(holes[qualifying].entry)),
    decreases n,
{
    if n > qualifying + 1 {
        lemma_scan_ends_at_last_qualifying(pos, holes, qualifying, n - 1);
    }
}

/// With `Use` asserted, every open fox hole whose entry is within reach of
/// where the fox stood at the start of the frame closes, however many there
/// are, and no other hole changes. If hole `last` is the last of them, the
/// fox leaves from its exit, moves from there as the frame's input says, and
/// one burst at its entry and one vignette start, where the registries have
/// room.
pub proof fn lemma_all_qualifying_holes_trigger(
    s: ModelState,
    held: Set<Action>,
    delta_time: u64,
    last: int,
)
    requires
        s.alive,
        held.contains(Action::Use),
        0 <= last < s.fox_holes.len(),
        hole_triggers(s.player, s.fox_holes, last),
        forall|j: int| last < j < s.fox_holes.len() ==> !#[trigger] hole_triggers(s.player, s.fox_holes, j),
    ensures
        step(s, held, delta_time).fox_holes.len() == s.fox_holes.len(),
        forall|i: int|
            0 <= i < s.fox_holes.len() ==> (#[trigger] step(s, held, delta_time).fox_holes[i]).used
                == (s.fox_holes[i].used || within(
                s.player,
                s.fox_holes[i].entry,
                FOX_HOLE_RADIUS as int,
            )),
        forall|i: int|
            0 <= i < s.fox_holes.len() ==> (#[trigger] step(s, held, delta_time).fox_holes[i]).entry
                == s.fox_holes[i].entry && step(s, held, delta_time).fox_holes[i].exit
                == s.fox_holes[i].exit,
        step(s, held, delta_time).player == walk_from(
            s.fox_holes[last].exit,
            held,
            delta_time as int,
        ),
        age_particles(s.particle_systems, delta_time).len() < CAPACITY ==> step(
            s,
            held,
            delta_time,
        ).particle_systems == age_particles(s.particle_systems, delta_time).push(
            entry_burst(s.fox_holes[last].entry),
        ),
        age_effects(s.post_process_effects, delta_time).len() < CAPACITY ==> step(
            s,
            held,
            delta_time,
        ).post_process_effects == age_effects(s.post_process_effects, delta_time).push(
            entry_vignette(),
        ),
{
    lemma_scan_ends_at_last_qualifying(s.player, s.fox_holes, last, s.fox_holes.len() as int);
}

/// With one open fox hole whose entry is within reach, asserting `Use` (and
/// no move) takes the fox to the exit and closes the hole; asserting `Use`
/// again in a later frame leaves the fox where it is.
pub proof fn lemma_fox_hole_one_shot(
    s: ModelState,
    held: Set<Action>,
    first: u64,
    second: u64,
)
    requires
        s.alive,
        s.fox_holes.len() == 1,
        !s.fox_holes[0].used,
        within(s.player, s.fox_holes[0].entry, FOX_HOLE_RADIUS as int),
        held.contains(Action::Use),
        chosen_direction(held) is None,
    ensures
        step(s, held, first).player == s.fox_holes[0].exit,
        step(s, held, first).fox_holes[0].used,
        step(step(s, held, first), held, second).player == step(s, held, first).player,
        step(step(s, held, first), held, second).fox_holes == step(s, held, first).fox_holes,
{
    let holes = s.fox_holes;
    assert(hole_triggers(s.player, holes, 0));
    let s1 = step(s, held, first);
    assert(holes_after_scan(s.player, holes)[0].used);
    let holes1 = s1.fox_holes;
    assert(holes1.len() == 1);
    assert(scan_holes(s1.player, holes1, 0) == (s1.player, None::<Vector2>));
    assert(scan_holes(s1.player, holes1, 1) == scan_holes(s1.player, holes1, 0));
    let after1 = holes_after_scan(s1.player, holes1);
    assert(after1[0] == holes1[0]);
    assert(after1 =~= holes1);
}

/// The fox is caught in a frame exactly when, after the fox holes and its
/// move, some wolf is within reach; once caught, frames change nothing, so
/// the world and everything exported from it stay as they are.
pub proof fn lemma_caught_stays_caught(
    s: ModelState,
    held: Set<Action>,
    delta_time: u64,
    frames: Seq<(Set<Action>, u64)>,
)
    ensures
        s.alive ==> step(s, held, delta_time).alive == !wolf_near(
            walk(use_fox_holes(s, held.contains(Action::Use)).0, held, delta_time as int).player,
            s.wolves,
        ),
        !s.alive ==> run(s, frames) == s,
        !s.alive ==> sprite_records(run(s, frames)) == sprite_records(s),
    decreases frames.len(),
{
    if !s.alive && frames.len() > 0 {
        lemma_caught_stays_caught(s, held, delta_time, frames.drop_first());
    }
}

/// A burst or screen effect whose time has run out is gone from the very next
/// export: after a frame, every exported particle and effect is still
/// running.
pub proof fn lemma_no_expired_effect_exported(
    s: ModelState,
    held: Set<Action>,
    delta_time: u64,
    particles: ParticlesViewModel,
    effects: PostProcessViewModel,
)
    requires
        s.wf(),
        particles.shows(step(s, held, delta_time).particle_systems),
        effects.effects@ == step(s, held, delta_time).post_process_effects.map_values(
            |e: crate::model::post_process_effect_meta_data::PostProcessEffectMetaData|
                effect_record(e),
        ),
    ensures
        forall|i: int|
            0 <= i < particles.count ==> #[trigger] particles.running_times@[i]
                < particles.max_running_times@[i],
        forall|i: int|
            0 <= i < effects.effects@.len() ==> (#[trigger] effects.effects@[i]).running_time
                < effects.effects@[i].max_running_time,
{
    crate::model::lemma_step_wf(s, held, delta_time);
    let next = step(s, held, delta_time);
    assert(particles_live(next.particle_systems));
    assert(effects_live(next.post_process_effects));
    assert forall|i: int| 0 <= i < particles.count implies #[trigger] particles.running_times@[i]
        < particles.max_running_times@[i] by {
        assert(next.particle_systems[i].running_time < next.particle_systems[i].max_running_time);
    }
    assert forall|i: int| 0 <= i < effects.effects@.len() implies (
    #[trigger] effects.effects@[i]).running_time < effects.effects@[i].max_running_time by {
        assert(next.post_process_effects[i].running_time
            < next.post_process_effects[i].max_running_time);
    }
}

} // verus!
