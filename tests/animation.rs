use for_fox_sake::model::animation::{SpriteAnimation, SpriteAnimationMetaData};
use for_fox_sake::model::fox::{Direction, Fox};
use for_fox_sake::model::model_utils::Vector2;

#[test]
fn clip_wraps_after_feeding_small_steps() {
    let mut fox = Fox::new(Vector2 { x: 0, y: 0 });
    for dt in [100_000u64, 100_000, 100_000, 50_000] {
        fox.update_animation(Direction::Left, dt);
    }
    assert_eq!(fox.animation.get_animation_time(), 50_000);
    assert_eq!(fox.get_sprite(), 3);
}

#[test]
fn clip_wraps_in_one_step() {
    let mut fox = Fox::new(Vector2 { x: 0, y: 0 });
    fox.update_animation(Direction::Left, 350_000);
    assert_eq!(fox.animation.get_animation_time(), 50_000);
    assert_eq!(fox.get_sprite(), 3);
    fox.update_animation(Direction::Left, 120_000);
    assert_eq!(fox.animation.get_animation_time(), 170_000);
    assert_eq!(fox.get_sprite(), 4);
}

#[test]
fn switching_clip_resets_time() {
    let mut fox = Fox::new(Vector2 { x: 0, y: 0 });
    fox.update_animation(Direction::Left, 250_000);
    assert_eq!(fox.get_sprite(), 5);
    fox.update_animation(Direction::Right, 70_000);
    assert_eq!(fox.animation.get_animation_time(), 0);
    assert_eq!(fox.animation.get_current_animation(), 1);
    assert_eq!(fox.get_sprite(), 6);
    fox.update_animation(Direction::Up, 0);
    assert_eq!(fox.get_sprite(), 9);
}

#[test]
fn custom_clip_table() {
    let clips = vec![
        SpriteAnimationMetaData { from_index: 0, to_index: 2, timeout: 10 },
        SpriteAnimationMetaData { from_index: 5, to_index: 9, timeout: 3 },
    ];
    let mut a = SpriteAnimation::new(clips, 1);
    assert_eq!(a.get_sprite(), 5);
    a.update_animation(1, 11);
    assert_eq!(a.get_animation_time(), 11);
    assert_eq!(a.get_sprite(), 8);
    a.update_animation(1, 1);
    assert_eq!(a.get_animation_time(), 0);
    a.update_animation(0, u64::MAX);
    assert_eq!(a.get_animation_time(), 0);
    a.update_animation(0, u64::MAX);
    assert_eq!(a.get_animation_time(), u64::MAX % 20);
    assert_eq!(a.get_sprite_animations().len(), 2);
}
