use spe::input::{InputContext, KeyState};

#[test]
fn no_key_is_down_at_first() {
    let input = InputContext::new();
    assert!(!input.is_key_pressed(30));
    assert!(!input.is_key_just_pressed(30));
    assert!(!input.is_key_released(30));
    assert!(input.is_keys_pressed(&[]));
}

#[test]
fn pressed_key_is_down_and_just_pressed() {
    let mut input = InputContext::new();
    input.insert(Some(30), KeyState::Pressed);
    assert!(input.is_key_pressed(30));
    assert!(input.is_key_just_pressed(30));
    assert!(!input.is_key_released(30));
    assert!(!input.is_key_pressed(31));
}

#[test]
fn update_forgets_what_happened_and_keeps_what_is_down() {
    let mut input = InputContext::new();
    input.insert(Some(30), KeyState::Pressed);
    input.insert(Some(31), KeyState::Pressed);
    input.insert(Some(31), KeyState::Released);
    input.update();
    assert!(input.is_key_pressed(30));
    assert!(!input.is_key_just_pressed(30));
    assert!(!input.is_key_pressed(31));
    assert!(!input.is_key_released(31));
}

#[test]
fn key_repeat_is_not_just_pressed() {
    let mut input = InputContext::new();
    input.insert(Some(30), KeyState::Pressed);
    input.update();
    input.insert(Some(30), KeyState::Pressed);
    assert!(input.is_key_pressed(30));
    assert!(!input.is_key_just_pressed(30));
}

#[test]
fn released_key_is_up_and_released() {
    let mut input = InputContext::new();
    input.insert(Some(30), KeyState::Pressed);
    input.insert(Some(30), KeyState::Released);
    assert!(!input.is_key_pressed(30));
    assert!(input.is_key_released(30));
    // What went down since the last update is still remembered.
    assert!(input.is_key_just_pressed(30));
    input.insert(Some(30), KeyState::Pressed);
    assert!(input.is_key_pressed(30));
    assert!(input.is_key_released(30));
}

#[test]
fn event_without_scancode_changes_nothing() {
    let mut input = InputContext::new();
    input.insert(Some(30), KeyState::Pressed);
    input.insert(None, KeyState::Released);
    input.insert(None, KeyState::Pressed);
    assert!(input.is_key_pressed(30));
    assert!(!input.is_key_released(30));
}

#[test]
fn all_keys_must_be_down() {
    let mut input = InputContext::new();
    input.insert(Some(1), KeyState::Pressed);
    assert!(input.is_keys_pressed(&[1]));
    assert!(!input.is_keys_pressed(&[1, 42]));
    assert!(!input.is_keys_pressed(&[42, 1]));
    input.insert(Some(42), KeyState::Pressed);
    assert!(input.is_keys_pressed(&[1, 42]));
    assert!(input.is_keys_pressed(&[42, 1, 42]));
    input.insert(Some(1), KeyState::Released);
    assert!(!input.is_keys_pressed(&[1, 42]));
}
