use windowhost::input::InputState;
use windowhost::keys::Key;
use windowhost::keys::MouseButton;

#[test]
fn press_hold_release_across_frames() {
    let mut input = InputState::new();

    // Frame N: the down-edge arrives.
    input.frame_reset();
    input.key_down(Key::W);
    assert!(input.is_key_pressed(Key::W));
    assert!(input.is_key_held(Key::W));
    assert!(!input.is_key_released(Key::W));

    // Frame N+1: still held, but no longer freshly pressed.
    input.frame_reset();
    assert!(!input.is_key_pressed(Key::W));
    assert!(input.is_key_held(Key::W));

    // The release: in neither pressed nor held.
    input.key_up(Key::W);
    assert!(!input.is_key_pressed(Key::W));
    assert!(!input.is_key_held(Key::W));
    assert!(input.is_key_released(Key::W));

    // The frame after the release reports nothing.
    input.frame_reset();
    assert!(!input.is_key_pressed(Key::W));
    assert!(!input.is_key_held(Key::W));
    assert!(!input.is_key_released(Key::W));
}

#[test]
fn repeat_down_while_held_is_not_a_press() {
    let mut input = InputState::new();
    input.key_down(Key::Space);
    input.frame_reset();
    // Auto-repeat: another down event while the key is held.
    input.key_down(Key::Space);
    assert!(!input.is_key_pressed(Key::Space));
    assert!(input.is_key_held(Key::Space));
}

#[test]
fn held_keys_are_independent() {
    let mut input = InputState::new();
    input.key_down(Key::A);
    input.key_down(Key::D);
    input.key_up(Key::A);
    assert!(!input.is_key_held(Key::A));
    assert!(input.is_key_held(Key::D));
    assert!(input.is_key_pressed(Key::D));
}

#[test]
fn mouse_buttons_persist_until_release() {
    let mut input = InputState::new();
    input.mouse_down(MouseButton::Primary);
    input.mouse_down(MouseButton::Middle);
    input.frame_reset();
    assert!(input.is_mouse_button_down(MouseButton::Primary));
    assert!(input.is_mouse_button_down(MouseButton::Middle));
    assert!(!input.is_mouse_button_down(MouseButton::Secondary));
    input.mouse_up(MouseButton::Primary);
    assert!(!input.is_mouse_button_down(MouseButton::Primary));
    assert!(input.is_mouse_button_down(MouseButton::Middle));
}

#[test]
fn mouse_position_and_lock() {
    let mut input = InputState::new();
    assert_eq!(input.mouse_position(), (0, 0));
    assert!(!input.is_mouse_locked());
    input.update_mouse_position(-12, 34);
    assert_eq!(input.mouse_position(), (-12, 34));
    input.set_mouse_locked(true);
    assert!(input.is_mouse_locked());
    input.frame_reset();
    // Position and lock survive the per-frame reset.
    assert_eq!(input.mouse_position(), (-12, 34));
    assert!(input.is_mouse_locked());
}
