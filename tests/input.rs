use for_fox_sake::input::{key_to_action, Action, Input};
use for_fox_sake::read_only_input::ReadOnlyInput;

#[test]
fn key_table() {
    assert_eq!(key_to_action(38), Some(Action::MoveUp));
    assert_eq!(key_to_action(87), Some(Action::MoveUp));
    assert_eq!(key_to_action(40), Some(Action::MoveDown));
    assert_eq!(key_to_action(83), Some(Action::MoveDown));
    assert_eq!(key_to_action(37), Some(Action::MoveLeft));
    assert_eq!(key_to_action(65), Some(Action::MoveLeft));
    assert_eq!(key_to_action(39), Some(Action::MoveRight));
    assert_eq!(key_to_action(68), Some(Action::MoveRight));
    assert_eq!(key_to_action(69), Some(Action::Use));
    assert_eq!(key_to_action(32), Some(Action::Use));
    assert_eq!(key_to_action(13), None);
}

#[test]
fn down_pressed_up_across_frames() {
    let mut input = Input::new();
    input.key_down(69);
    {
        let view = ReadOnlyInput::new(&input);
        assert!(view.is_input_down(Action::Use));
        assert!(!view.is_input_pressed(Action::Use));
        assert!(!view.is_input_up(Action::Use));
    }
    input.finalize();
    {
        let view = ReadOnlyInput::new(&input);
        assert!(!view.is_input_down(Action::Use));
        assert!(view.is_input_pressed(Action::Use));
    }
    input.key_up(69);
    {
        let view = ReadOnlyInput::new(&input);
        assert!(view.is_input_up(Action::Use));
        assert!(!view.is_input_pressed(Action::Use));
    }
    input.finalize();
    let view = ReadOnlyInput::new(&input);
    assert!(!view.is_input_up(Action::Use));
    assert!(!view.is_input_down(Action::Use));
}

#[test]
fn two_keys_of_one_action() {
    let mut input = Input::new();
    input.key_down(38);
    input.key_down(87);
    input.key_up(38);
    assert!(input.is_input_pressed_this_frame(Action::MoveUp));
    input.key_up(87);
    assert!(!input.is_input_pressed_this_frame(Action::MoveUp));
}

#[test]
fn repeated_key_down_counts_once() {
    let mut input = Input::new();
    input.key_down(37);
    input.key_down(37);
    input.key_up(37);
    assert!(!input.is_input_pressed_this_frame(Action::MoveLeft));
    input.key_up(37);
    assert!(!input.is_input_pressed_this_frame(Action::MoveLeft));
}

#[test]
fn unmapped_key_changes_nothing() {
    let mut input = Input::new();
    input.key_down(13);
    input.finalize();
    for a in [Action::MoveUp, Action::MoveDown, Action::MoveLeft, Action::MoveRight, Action::Use] {
        assert!(!input.is_input_pressed_this_frame(a));
        assert!(!input.is_input_pressed_last_frame(a));
    }
}

#[test]
fn last_frame_follows_finalize() {
    let mut input = Input::new();
    input.key_down(68);
    assert!(!input.is_input_pressed_last_frame(Action::MoveRight));
    input.finalize();
    assert!(input.is_input_pressed_last_frame(Action::MoveRight));
    input.key_up(68);
    assert!(input.is_input_pressed_last_frame(Action::MoveRight));
    assert!(!input.is_input_pressed_this_frame(Action::MoveRight));
}
