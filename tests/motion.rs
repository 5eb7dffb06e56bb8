use scene_viewer::input_manager::{KeyState, LogicalKey};
use scene_viewer::motion::{CameraVelocity, KEY_SPEED};

fn v(x: i32, y: i32, z: i32) -> CameraVelocity {
    CameraVelocity { x, y, z }
}

#[test]
fn starts_at_rest() {
    assert_eq!(CameraVelocity::new(), v(0, 0, 0));
}

#[test]
fn each_key_moves_along_its_axis() {
    let cases = [
        (LogicalKey::MoveForward, v(0, 10, 0)),
        (LogicalKey::MoveBackward, v(0, -10, 0)),
        (LogicalKey::StrafeLeft, v(-10, 0, 0)),
        (LogicalKey::StrafeRight, v(10, 0, 0)),
        (LogicalKey::MoveUp, v(0, 0, 10)),
        (LogicalKey::MoveDown, v(0, 0, -10)),
    ];
    for (key, expected) in cases {
        let mut vel = CameraVelocity::new();
        vel.handle_key_event(key, KeyState::Down);
        assert_eq!(vel, expected);
    }
    assert_eq!(KEY_SPEED, 10);
}

#[test]
fn press_then_release_restores_velocity() {
    let start = v(20, -10, 30);
    for key in [
        LogicalKey::MoveForward,
        LogicalKey::MoveBackward,
        LogicalKey::StrafeLeft,
        LogicalKey::StrafeRight,
        LogicalKey::MoveUp,
        LogicalKey::MoveDown,
    ] {
        let mut vel = start;
        vel.handle_key_event(key, KeyState::Down);
        assert_ne!(vel, start);
        vel.handle_key_event(key, KeyState::Up);
        assert_eq!(vel, start);
    }
}

#[test]
fn held_keys_sum_without_renormalising() {
    let mut vel = CameraVelocity::new();
    vel.handle_key_event(LogicalKey::MoveForward, KeyState::Down);
    vel.handle_key_event(LogicalKey::StrafeRight, KeyState::Down);
    vel.handle_key_event(LogicalKey::MoveUp, KeyState::Down);
    assert_eq!(vel, v(10, 10, 10));
    vel.handle_key_event(LogicalKey::StrafeRight, KeyState::Up);
    assert_eq!(vel, v(0, 10, 10));
}

#[test]
fn opposite_keys_cancel() {
    let mut vel = CameraVelocity::new();
    vel.handle_key_event(LogicalKey::MoveForward, KeyState::Down);
    vel.handle_key_event(LogicalKey::MoveBackward, KeyState::Down);
    assert_eq!(vel, v(0, 0, 0));
}

#[test]
fn release_without_press_subtracts() {
    let mut vel = CameraVelocity::new();
    vel.handle_key_event(LogicalKey::MoveDown, KeyState::Up);
    assert_eq!(vel, v(0, 0, 10));
}

#[test]
fn can_apply_refuses_overflow() {
    let near_max = v(i32::MAX - 5, 0, 0);
    assert!(!near_max.can_apply(LogicalKey::StrafeRight, KeyState::Down));
    assert!(near_max.can_apply(LogicalKey::StrafeLeft, KeyState::Down));
    assert!(near_max.can_apply(LogicalKey::MoveForward, KeyState::Down));
    let near_min = v(0, 0, i32::MIN + 5);
    assert!(!near_min.can_apply(LogicalKey::MoveDown, KeyState::Down));
    assert!(!near_min.can_apply(LogicalKey::MoveUp, KeyState::Up));
    assert!(near_min.can_apply(LogicalKey::MoveUp, KeyState::Down));
    let at_min = v(0, 0, i32::MIN + 10);
    assert!(at_min.can_apply(LogicalKey::MoveDown, KeyState::Down));
}
