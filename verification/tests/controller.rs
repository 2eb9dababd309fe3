use wgpu_render_engine::controller::CameraController;
use wgpu_render_engine::controller::DELTA_UNITS_PER_POINTER_UNIT;
use winit::event::ElementState;
use winit::event::VirtualKeyCode;

fn fresh() -> CameraController {
    CameraController::new(200_000, 400)
}

#[test]
fn new_controller_holds_nothing() {
    let c = fresh();
    assert!(!c.amount_forward && !c.amount_backward);
    assert!(!c.amount_left && !c.amount_right);
    assert!(!c.amount_up && !c.amount_down);
    assert_eq!(c.rotate_horizontal, 0);
    assert_eq!(c.rotate_vertical, 0);
    assert_eq!(c.speed, 200_000);
    assert_eq!(c.sensitivity, 400);
}

#[test]
fn letter_keys_latch_their_intents() {
    let mut c = fresh();
    assert!(c.process_keyboard(VirtualKeyCode::W, ElementState::Pressed));
    assert!(c.amount_forward);
    assert!(c.process_keyboard(VirtualKeyCode::S, ElementState::Pressed));
    assert!(c.amount_backward);
    assert!(c.process_keyboard(VirtualKeyCode::A, ElementState::Pressed));
    assert!(c.amount_left);
    assert!(c.process_keyboard(VirtualKeyCode::D, ElementState::Pressed));
    assert!(c.amount_right);
    assert!(c.process_keyboard(VirtualKeyCode::Space, ElementState::Pressed));
    assert!(c.amount_up);
    assert!(c.process_keyboard(VirtualKeyCode::LShift, ElementState::Pressed));
    assert!(c.amount_down);
}

#[test]
fn arrow_keys_latch_the_same_intents() {
    let mut c = fresh();
    assert!(c.process_keyboard(VirtualKeyCode::Up, ElementState::Pressed));
    assert!(c.process_keyboard(VirtualKeyCode::Left, ElementState::Pressed));
    let mut d = fresh();
    assert!(d.process_keyboard(VirtualKeyCode::W, ElementState::Pressed));
    assert!(d.process_keyboard(VirtualKeyCode::A, ElementState::Pressed));
    assert_eq!(c, d);

    let mut c = fresh();
    assert!(c.process_keyboard(VirtualKeyCode::Down, ElementState::Pressed));
    assert!(c.process_keyboard(VirtualKeyCode::Right, ElementState::Pressed));
    let mut d = fresh();
    assert!(d.process_keyboard(VirtualKeyCode::S, ElementState::Pressed));
    assert!(d.process_keyboard(VirtualKeyCode::D, ElementState::Pressed));
    assert_eq!(c, d);
}

#[test]
fn release_clears_only_its_own_latch() {
    let mut c = fresh();
    c.process_keyboard(VirtualKeyCode::W, ElementState::Pressed);
    c.process_keyboard(VirtualKeyCode::D, ElementState::Pressed);
    assert!(c.process_keyboard(VirtualKeyCode::W, ElementState::Released));
    assert!(!c.amount_forward);
    assert!(c.amount_right);
}

#[test]
fn unmapped_key_is_not_recognized_and_changes_nothing() {
    let mut c = fresh();
    c.process_keyboard(VirtualKeyCode::W, ElementState::Pressed);
    let before = c;
    assert!(!c.process_keyboard(VirtualKeyCode::Escape, ElementState::Pressed));
    assert!(!c.process_keyboard(VirtualKeyCode::Q, ElementState::Released));
    assert!(!c.process_keyboard(VirtualKeyCode::RShift, ElementState::Pressed));
    assert_eq!(c, before);
}

#[test]
fn pointer_motion_is_scaled_and_inverted() {
    let mut c = fresh();
    c.process_mouse_movement(10 * DELTA_UNITS_PER_POINTER_UNIT, -3 * DELTA_UNITS_PER_POINTER_UNIT);
    assert_eq!(c.rotate_horizontal, -4_000_000);
    assert_eq!(c.rotate_vertical, 1_200_000);
}

#[test]
fn fractions_of_a_pointer_unit_are_kept() {
    assert_eq!(DELTA_UNITS_PER_POINTER_UNIT, 1000);
    let mut c = fresh();
    c.process_mouse_movement(500, -250);
    assert_eq!(c.rotate_horizontal, -200_000);
    assert_eq!(c.rotate_vertical, 100_000);
    c.process_mouse_movement(1, -1);
    assert_eq!(c.rotate_horizontal, -400);
    assert_eq!(c.rotate_vertical, 400);
}

#[test]
fn pointer_motion_overwrites_what_is_pending() {
    let mut c = fresh();
    c.process_mouse_movement(10_000, 10_000);
    c.process_mouse_movement(1_000, 2_000);
    assert_eq!(c.rotate_horizontal, -400_000);
    assert_eq!(c.rotate_vertical, -800_000);
}

#[test]
fn extreme_pointer_motion_does_not_overflow() {
    let mut c = CameraController::new(0, i32::MIN);
    c.process_mouse_movement(i32::MIN, i32::MAX);
    assert_eq!(c.rotate_horizontal, -(1i64 << 62));
    assert_eq!(c.rotate_vertical, (i32::MAX as i64) << 31);
}

#[test]
fn reset_drops_the_pending_rotation_and_keeps_the_latches() {
    let mut c = fresh();
    c.process_keyboard(VirtualKeyCode::Space, ElementState::Pressed);
    c.process_mouse_movement(7, 9);
    c.reset_mouse_movement();
    assert_eq!(c.rotate_horizontal, 0);
    assert_eq!(c.rotate_vertical, 0);
    assert!(c.amount_up);
    assert_eq!(c.sensitivity, 400);
    assert_eq!(c.speed, 200_000);
}
