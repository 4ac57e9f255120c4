use for_fox_sake::input::Input;
use for_fox_sake::model::level::Levels;
use for_fox_sake::model::model_utils::Vector2;
use for_fox_sake::model::Model;
use for_fox_sake::read_only_input::ReadOnlyInput;
use for_fox_sake::view_models::PostProcessEffects;

const UP: i32 = 38;
const DOWN: i32 = 40;
const LEFT: i32 = 37;
const RIGHT: i32 = 39;
const USE: i32 = 69;

fn level_zero() -> Model {
    let mut model = Model::new().unwrap();
    model.load_level(0).unwrap();
    model
}

fn frame(model: &mut Model, input: &mut Input, delta_time: u64) {
    model.update(ReadOnlyInput::new(input), delta_time);
    input.finalize();
}

fn hold(model: &mut Model, keys: &[i32], delta_time: u64) {
    let mut input = Input::new();
    for k in keys {
        input.key_down(*k);
    }
    frame(model, &mut input, delta_time);
}

#[test]
fn new_model_is_alive_at_origin() {
    let model = Model::new().unwrap();
    assert!(model.is_alive());
    assert_eq!(model.player_position(), Vector2 { x: 0, y: 0 });
    assert_eq!(model.to_particles_view_model().count, 0);
    assert_eq!(model.to_post_process_view_model().effects.len(), 0);
}

#[test]
fn level_zero_loads() {
    let mut model = Model::new().unwrap();
    let level = model.load_level(0).unwrap();
    assert_eq!(level.width, 5);
    assert_eq!(level.height, 5);
    assert_eq!(
        level.data,
        vec![1, 1, 1, 1, 1, 1, 0, 1, 0, 1, 1, 1, 1, 1, 1, 1, 0, 1, 0, 1, 1, 1, 1, 1, 1]
    );
    assert_eq!(model.player_position(), Vector2 { x: 0, y: 0 });
    let holes = model.get_fox_holes();
    assert_eq!(holes.len(), 1);
    assert_eq!(holes[0].entry, Vector2 { x: -400_000_000, y: 0 });
    assert_eq!(holes[0].exit, Vector2 { x: 0, y: 400_000_000 });
    assert!(!holes[0].used);
}

#[test]
fn unknown_level_is_refused() {
    let mut model = level_zero();
    hold(&mut model, &[RIGHT], 500_000);
    let before = model.player_position();
    let err = model.load_level(1).err().unwrap();
    assert_eq!(err, "Level not found");
    assert_eq!(model.player_position(), before);
    assert!(model.load_level(255).is_err());
}

#[test]
fn level_data_of_level_zero() {
    let level = Levels::level_0();
    assert_eq!(level.get_data().len(), 5);
    assert_eq!(level.get_data()[1], vec![1, 0, 1, 0, 1]);
    assert_eq!(level.get_start_pos().column, 2);
    assert_eq!(level.get_start_pos().row, 2);
    assert_eq!(level.get_fox_holes()[0].exit.row, 1);
    assert_eq!(level.get_wolves()[0].pos.row, 4);
    assert_eq!(level.get_wolves()[0].sprite, 14);
}

#[test]
fn sprites_after_load() {
    let model = level_zero();
    let sprites = model.to_sprites_view_model();
    assert_eq!(sprites.count, 4);
    assert_eq!(sprites.positions[0], Vector2 { x: -400_000_000, y: 0 });
    assert_eq!(sprites.positions[1], Vector2 { x: 0, y: 400_000_000 });
    assert_eq!(sprites.positions[2], Vector2 { x: 0, y: -800_000_000 });
    assert_eq!(sprites.positions[3], Vector2 { x: 0, y: 0 });
    assert_eq!(&sprites.tile_map_indices[..5], &[12, 12, 14, 3, 0]);
    assert_eq!(sprites.sizes[0], Vector2 { x: 200_000_000, y: 200_000_000 });
    assert_eq!(sprites.sizes[4], Vector2 { x: 0, y: 0 });
}

#[test]
fn move_up_for_one_second() {
    let mut model = level_zero();
    hold(&mut model, &[UP], 1_000_000);
    assert_eq!(model.player_position(), Vector2 { x: 0, y: 200_000_000 });
    assert_eq!(model.get_player().get_sprite(), 9);
}

#[test]
fn each_direction_moves_its_axis() {
    let mut model = level_zero();
    hold(&mut model, &[RIGHT], 250_000);
    assert_eq!(model.player_position(), Vector2 { x: 50_000_000, y: 0 });
    hold(&mut model, &[DOWN], 500_000);
    assert_eq!(model.player_position(), Vector2 { x: 50_000_000, y: -100_000_000 });
    hold(&mut model, &[LEFT], 5);
    assert_eq!(model.player_position(), Vector2 { x: 49_999_000, y: -100_000_000 });
}

#[test]
fn opposite_keys_cancel() {
    let mut model = level_zero();
    hold(&mut model, &[LEFT, RIGHT], 1_000_000);
    assert_eq!(model.player_position(), Vector2 { x: 0, y: 0 });
    hold(&mut model, &[LEFT, RIGHT, UP], 1_000_000);
    assert_eq!(model.player_position(), Vector2 { x: 0, y: 200_000_000 });
    hold(&mut model, &[UP, DOWN], 1_000_000);
    assert_eq!(model.player_position(), Vector2 { x: 0, y: 200_000_000 });
}

#[test]
fn one_axis_per_frame() {
    let mut model = level_zero();
    hold(&mut model, &[LEFT, UP], 1_000_000);
    assert_eq!(model.player_position(), Vector2 { x: -200_000_000, y: 0 });
    hold(&mut model, &[RIGHT, DOWN], 1_000_000);
    assert_eq!(model.player_position(), Vector2 { x: 0, y: 0 });
}

#[test]
fn use_far_from_hole_does_nothing() {
    let mut model = level_zero();
    hold(&mut model, &[USE], 100_000);
    assert_eq!(model.player_position(), Vector2 { x: 0, y: 0 });
    assert!(!model.get_fox_holes()[0].used);
    assert_eq!(model.to_particles_view_model().count, 0);
}

#[test]
fn fox_hole_is_one_shot() {
    let mut model = level_zero();
    hold(&mut model, &[LEFT], 2_000_000);
    assert_eq!(model.player_position(), Vector2 { x: -400_000_000, y: 0 });
    let mut input = Input::new();
    input.key_down(USE);
    frame(&mut model, &mut input, 100_000);
    assert_eq!(model.player_position(), Vector2 { x: 0, y: 400_000_000 });
    assert!(model.get_fox_holes()[0].used);
    // walk back to the entry and press again: the hole is closed
    hold(&mut model, &[DOWN], 2_000_000);
    hold(&mut model, &[LEFT], 2_000_000);
    assert_eq!(model.player_position(), Vector2 { x: -400_000_000, y: 0 });
    hold(&mut model, &[USE], 100_000);
    assert_eq!(model.player_position(), Vector2 { x: -400_000_000, y: 0 });
    // holding the key over two frames does not use it either
    frame(&mut model, &mut input, 100_000);
    assert_eq!(model.player_position(), Vector2 { x: -400_000_000, y: 0 });
}

#[test]
fn end_to_end_level_zero() {
    let mut model = level_zero();
    hold(&mut model, &[UP], 1_000_000);
    assert_eq!(model.player_position(), Vector2 { x: 0, y: 200_000_000 });
    hold(&mut model, &[DOWN], 1_000_000);
    hold(&mut model, &[LEFT], 2_000_000);
    hold(&mut model, &[USE], 16_000);
    assert_eq!(model.player_position(), Vector2 { x: 0, y: 400_000_000 });
    let particles = model.to_particles_view_model();
    assert_eq!(particles.count, 1);
    assert_eq!(particles.positions[0], Vector2 { x: -400_000_000, y: 0 });
    assert_eq!(particles.max_speeds[0], 100_000_000);
    assert_eq!(particles.running_times[0], 0);
    assert_eq!(particles.max_running_times[0], 3_000_000);
    let effects = model.to_post_process_view_model().effects;
    assert_eq!(effects.len(), 1);
    assert_eq!(effects[0].name, PostProcessEffects::VIGNETTE);
    assert_eq!(effects[0].running_time, 0);
    assert_eq!(effects[0].max_running_time, 1_500_000);
    let sprites = model.to_sprites_view_model();
    assert_eq!(sprites.count, 6);
    assert_eq!(&sprites.tile_map_indices[..6], &[12, 12, 13, 13, 14, 3]);
    assert_eq!(sprites.sizes[2], Vector2 { x: 150_000_000, y: 150_000_000 });
    // walk down towards the wolf at (0, -0.8)
    hold(&mut model, &[DOWN], 5_000_000);
    assert!(model.is_alive());
    assert_eq!(model.player_position(), Vector2 { x: 0, y: -600_000_000 });
    hold(&mut model, &[DOWN], 500_000);
    assert_eq!(model.player_position(), Vector2 { x: 0, y: -700_000_000 });
    assert!(!model.is_alive());
    let frozen = model.to_sprites_view_model();
    for keys in [&[UP][..], &[LEFT, USE][..], &[][..]] {
        hold(&mut model, keys, 1_000_000);
        let now = model.to_sprites_view_model();
        assert_eq!(now.positions, frozen.positions);
        assert_eq!(now.tile_map_indices, frozen.tile_map_indices);
        assert_eq!(now.count, frozen.count);
        assert!(!model.is_alive());
    }
}

#[test]
fn effects_expire_exactly_at_their_lifetime() {
    let mut model = level_zero();
    hold(&mut model, &[LEFT], 2_000_000);
    hold(&mut model, &[USE], 10);
    hold(&mut model, &[], 1_499_999);
    assert_eq!(model.to_post_process_view_model().effects.len(), 1);
    assert_eq!(model.to_post_process_view_model().effects[0].running_time, 1_499_999);
    hold(&mut model, &[], 1);
    assert_eq!(model.to_post_process_view_model().effects.len(), 0);
    assert_eq!(model.to_particles_view_model().count, 1);
    hold(&mut model, &[], 1_500_000);
    let particles = model.to_particles_view_model();
    assert_eq!(particles.count, 0);
    assert_eq!(particles.running_times[0], 0);
    assert_eq!(particles.positions[0], Vector2 { x: 0, y: 0 });
}

#[test]
fn long_frame_keeps_new_effects() {
    let mut model = level_zero();
    hold(&mut model, &[LEFT], 2_000_000);
    hold(&mut model, &[USE], 10_000_000);
    assert_eq!(model.to_particles_view_model().count, 1);
    assert_eq!(model.to_post_process_view_model().effects.len(), 1);
    hold(&mut model, &[], u64::MAX);
    assert_eq!(model.to_particles_view_model().count, 0);
    assert_eq!(model.to_post_process_view_model().effects.len(), 0);
}

#[test]
fn caught_when_starting_next_to_wolf() {
    let mut model = level_zero();
    hold(&mut model, &[DOWN], 3_250_000);
    assert_eq!(model.player_position(), Vector2 { x: 0, y: -650_000_000 });
    assert!(model.is_alive());
    hold(&mut model, &[DOWN], 1);
    assert!(!model.is_alive());
}

#[test]
fn position_saturates_at_world_edge() {
    let mut model = level_zero();
    hold(&mut model, &[RIGHT], u64::MAX);
    assert_eq!(model.player_position(), Vector2 { x: i64::MAX, y: 0 });
    hold(&mut model, &[LEFT], u64::MAX);
    assert_eq!(model.player_position(), Vector2 { x: i64::MIN, y: 0 });
}
