use wgpu::SurfaceError;
use wgpu_render_engine::camera::Camera;
use wgpu_render_engine::camera::CameraStep;
use wgpu_render_engine::controller::CameraController;
use wgpu_render_engine::frame::frame_commands;
use wgpu_render_engine::frame::DrawGroup;
use wgpu_render_engine::frame::ModelTransform;
use wgpu_render_engine::renderer::KeyboardEvent;
use wgpu_render_engine::renderer::LoopAction;
use wgpu_render_engine::renderer::Renderer;
use wgpu_render_engine::renderer::ROTATION_STEP;
use wgpu_render_engine::renderer::SENSITIVITY;
use wgpu_render_engine::renderer::SPEED;
use winit::dpi::PhysicalSize;
use winit::event::ElementState;
use winit::event::VirtualKeyCode;
use winit::event::WindowEvent;

fn scene() -> Vec<DrawGroup> {
    vec![
        DrawGroup { transform: ModelTransform::Animated, start: 0, end: 18 },
        DrawGroup { transform: ModelTransform::Identity, start: 18, end: 36 },
    ]
}

fn fresh() -> Renderer {
    Renderer::new(800, 600, scene())
}

fn key(code: VirtualKeyCode, state: ElementState) -> Option<KeyboardEvent> {
    Some(KeyboardEvent { virtual_keycode: Some(code), state })
}

#[test]
fn new_renderer_starts_from_the_defaults() {
    let renderer = fresh();
    assert_eq!(renderer.camera, Camera::new(800, 600));
    assert_eq!(SPEED, 200_000);
    assert_eq!(SENSITIVITY, 400);
    assert_eq!(renderer.camera_controller, CameraController::new(SPEED, SENSITIVITY));
    assert_eq!(renderer.rotation, 0);
    assert_eq!(renderer.width, 800);
    assert_eq!(renderer.height, 600);
    assert_eq!(renderer.groups, scene());
}

#[test]
fn resize_takes_a_size_with_an_area() {
    let mut renderer = fresh();
    assert!(renderer.resize(1024, 768));
    assert_eq!(renderer.width, 1024);
    assert_eq!(renderer.height, 768);
    assert_eq!(renderer.camera.width, 1024);
    assert_eq!(renderer.camera.height, 768);
}

#[test]
fn resize_without_area_changes_nothing() {
    let mut renderer = fresh();
    let before = fresh();
    assert!(!renderer.resize(0, 600));
    assert_eq!(renderer, before);
    assert!(!renderer.resize(800, 0));
    assert_eq!(renderer, before);
    assert!(!renderer.resize(0, 0));
    assert_eq!(renderer, before);
    assert_eq!(renderer.camera.width, 800);
    assert_eq!(renderer.camera.height, 600);
}

#[test]
fn movement_key_is_consumed() {
    let mut renderer = fresh();
    assert!(renderer.keyboard(key(VirtualKeyCode::W, ElementState::Pressed)));
    assert!(renderer.camera_controller.amount_forward);
    assert!(renderer.keyboard(key(VirtualKeyCode::W, ElementState::Released)));
    assert!(!renderer.camera_controller.amount_forward);
}

#[test]
fn other_keyboard_events_are_left_to_the_caller() {
    let mut renderer = fresh();
    let before = fresh();
    assert!(!renderer.keyboard(key(VirtualKeyCode::Escape, ElementState::Pressed)));
    assert!(!renderer.keyboard(Some(KeyboardEvent { virtual_keycode: None, state: ElementState::Pressed })));
    assert!(!renderer.keyboard(None));
    assert_eq!(renderer, before);
}

#[test]
fn window_events_without_a_key_are_left_to_the_caller() {
    let mut renderer = fresh();
    let before = fresh();
    assert!(!renderer.input(&WindowEvent::CloseRequested));
    assert!(!renderer.input(&WindowEvent::Resized(PhysicalSize::new(640, 480))));
    assert!(!renderer.input(&WindowEvent::Focused(true)));
    assert_eq!(renderer, before);
}

#[test]
fn update_applies_and_drains_the_pointer_motion() {
    let mut renderer = fresh();
    renderer.process_mouse_movement(10_000, 5_000);
    assert_eq!(renderer.camera_controller.rotate_horizontal, -4_000_000);
    assert_eq!(renderer.camera_controller.rotate_vertical, -2_000_000);
    assert!(renderer.can_update());
    let step = renderer.update();
    assert_eq!(step, CameraStep { forward: 0, right: 0, up: 0 });
    assert_eq!(renderer.camera.yaw, -94_000_000);
    assert_eq!(renderer.camera.pitch, -2_000_000);
    assert_eq!(renderer.camera_controller.rotate_horizontal, 0);
    assert_eq!(renderer.camera_controller.rotate_vertical, 0);
    assert_eq!(renderer.rotation, ROTATION_STEP);
    // A second tick without new motion does not turn again.
    renderer.update();
    assert_eq!(renderer.camera.yaw, -94_000_000);
    assert_eq!(renderer.camera.pitch, -2_000_000);
}

#[test]
fn update_moves_by_the_held_keys() {
    let mut renderer = fresh();
    renderer.keyboard(key(VirtualKeyCode::W, ElementState::Pressed));
    renderer.keyboard(key(VirtualKeyCode::A, ElementState::Pressed));
    let step = renderer.update();
    assert_eq!(step, CameraStep { forward: 200_000, right: -200_000, up: 0 });
    assert!(renderer.camera_controller.amount_forward);
}

#[test]
fn render_records_the_frame_of_the_groups() {
    let renderer = fresh();
    assert_eq!(renderer.render(Ok(())), Ok(frame_commands(&scene())));
}

#[test]
fn render_hands_a_failed_acquire_back() {
    let renderer = fresh();
    assert_eq!(renderer.render(Err(SurfaceError::Lost)), Err(SurfaceError::Lost));
    assert_eq!(renderer.render(Err(SurfaceError::Timeout)), Err(SurfaceError::Timeout));
    assert_eq!(renderer.render(Err(SurfaceError::Outdated)), Err(SurfaceError::Outdated));
    assert_eq!(renderer.render(Err(SurfaceError::OutOfMemory)), Err(SurfaceError::OutOfMemory));
}

#[test]
fn lost_surface_is_configured_to_the_last_size() {
    let mut renderer = fresh();
    renderer.resize(1280, 720);
    let before = Renderer::new(1280, 720, scene());
    assert_eq!(
        renderer.on_surface_error(SurfaceError::Lost),
        LoopAction::Reconfigure { width: 1280, height: 720 }
    );
    assert_eq!(renderer, before);
}

#[test]
fn lost_surface_without_area_is_not_configured() {
    let mut renderer = Renderer::new(0, 600, scene());
    assert_eq!(renderer.on_surface_error(SurfaceError::Lost), LoopAction::Continue);
    assert_eq!(renderer, Renderer::new(0, 600, scene()));
    let mut renderer = Renderer::new(800, 0, scene());
    assert_eq!(renderer.on_surface_error(SurfaceError::Lost), LoopAction::Continue);
    assert_eq!(renderer, Renderer::new(800, 0, scene()));
}

#[test]
fn out_of_memory_ends_the_loop() {
    let mut renderer = fresh();
    assert_eq!(renderer.on_surface_error(SurfaceError::OutOfMemory), LoopAction::Exit);
}

#[test]
fn other_errors_cost_one_frame() {
    let mut renderer = fresh();
    assert_eq!(renderer.on_surface_error(SurfaceError::Timeout), LoopAction::Report);
    assert_eq!(renderer.on_surface_error(SurfaceError::Outdated), LoopAction::Report);
    assert_eq!(renderer, fresh());
}

#[test]
fn tick_with_a_target_updates_and_records() {
    let mut renderer = fresh();
    renderer.keyboard(key(VirtualKeyCode::Space, ElementState::Pressed));
    renderer.process_mouse_movement(-10_000, 0);
    let frame = renderer.tick(Ok(())).unwrap();
    assert_eq!(frame.step, CameraStep { forward: 0, right: 0, up: 200_000 });
    assert_eq!(frame.commands, frame_commands(&scene()));
    assert_eq!(renderer.camera.yaw, -86_000_000);
    assert_eq!(renderer.camera_controller.rotate_horizontal, 0);
}

#[test]
fn tick_without_a_target_is_given_up_as_a_whole() {
    let mut renderer = fresh();
    renderer.process_mouse_movement(-10_000, 4_000);
    let mut before = fresh();
    before.process_mouse_movement(-10_000, 4_000);
    assert_eq!(renderer.tick(Err(SurfaceError::Timeout)), Err(LoopAction::Report));
    assert_eq!(renderer, before);
    assert_eq!(renderer.tick(Err(SurfaceError::OutOfMemory)), Err(LoopAction::Exit));
    assert_eq!(renderer, before);
}

#[test]
fn lost_then_retry_needs_no_second_resize() {
    let mut renderer = fresh();
    renderer.process_mouse_movement(3_000, 0);
    let action = renderer.tick(Err(SurfaceError::Lost));
    assert_eq!(action, Err(LoopAction::Reconfigure { width: 800, height: 600 }));
    // The caller configures the surface to that size; the next acquire
    // succeeds and the tick runs in full, with the input still pending.
    let frame = renderer.tick(Ok(())).unwrap();
    assert_eq!(frame.commands, frame_commands(&scene()));
    assert_eq!(renderer.camera.yaw, -91_200_000);
    assert_eq!(renderer.width, 800);
    assert_eq!(renderer.height, 600);
}

#[test]
fn update_adds_the_rotation_to_the_yaw_past_the_half_turn() {
    let mut renderer = fresh();
    renderer.camera.yaw = 170_000_000;
    renderer.camera_controller.rotate_horizontal = 20_000_000;
    renderer.rotation = 200_000_000;
    renderer.update();
    assert_eq!(renderer.camera.yaw, 190_000_000);
    assert_eq!(renderer.rotation, 200_000_000 + ROTATION_STEP);
}

#[test]
fn update_is_not_possible_when_the_yaw_would_not_fit() {
    let mut renderer = fresh();
    renderer.camera.yaw = i64::MIN + 5;
    renderer.camera_controller.rotate_horizontal = -6;
    assert!(!renderer.can_update());
    renderer.camera_controller.rotate_horizontal = -5;
    assert!(renderer.can_update());
    renderer.update();
    assert_eq!(renderer.camera.yaw, i64::MIN);
    // Without a target nothing is added, so the tick needs no room.
    renderer.camera_controller.rotate_horizontal = -1;
    assert!(!renderer.can_update());
    assert_eq!(renderer.tick(Err(SurfaceError::Timeout)), Err(LoopAction::Report));
    assert_eq!(renderer.camera.yaw, i64::MIN);
}
