use winit::keyboard::KeyCode;
use xd_engine::input::PressedKeys;

#[test]
fn a_held_key_is_remembered_until_released() {
    let mut pressed_keys = PressedKeys::new();

    pressed_keys.track_key(KeyCode::KeyW as u32, true);
    assert!(pressed_keys.contains(KeyCode::KeyW as u32));

    // The system's auto-repeat changes nothing
    pressed_keys.track_key(KeyCode::KeyW as u32, true);
    assert_eq!(pressed_keys.len(), 1);

    pressed_keys.track_key(KeyCode::KeyW as u32, false);
    assert!(pressed_keys.is_empty());
}

#[test]
fn losing_focus_releases_every_held_key() {
    let mut pressed_keys = PressedKeys::new();

    pressed_keys.track_key(KeyCode::KeyW as u32, true);
    pressed_keys.track_key(KeyCode::ShiftLeft as u32, true);

    pressed_keys.focus_changed(true);
    assert_eq!(pressed_keys.len(), 2, "gaining focus must not reset anything");

    pressed_keys.focus_changed(false);
    assert!(pressed_keys.is_empty(), "losing focus must release everything");
}

#[test]
fn releasing_a_key_that_was_never_pressed_changes_nothing() {
    let mut pressed_keys = PressedKeys::new();
    pressed_keys.track_key(KeyCode::KeyA as u32, true);
    pressed_keys.track_key(KeyCode::KeyD as u32, false);
    assert_eq!(pressed_keys.len(), 1);
    assert!(pressed_keys.contains(KeyCode::KeyA as u32));
    assert!(!pressed_keys.contains(KeyCode::KeyD as u32));
}
