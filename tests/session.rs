use vision_renderer::cycler::InstanceWindowCycler;
use vision_renderer::session::{
    changed_updates_per_second, is_drawable_size, render_action, CameraCommand, DragRotate,
    EventAction, FrameStatus, InputEvent, Key, RenderAction, SessionState,
};

fn session() -> SessionState {
    SessionState::new(InstanceWindowCycler::new(50, 25).unwrap())
}

#[test]
fn new_session_is_idle() {
    let s = session();
    assert_eq!(s.volumes_refreshed, 0);
    assert!(!s.enable_voxel_flicker);
    assert!(!s.mouse_left_pressed);
}

#[test]
fn key_zero_toggles_flicker() {
    let mut s = session();
    let r = s.input(InputEvent::KeyPressed(Key::Digit0));
    assert!(r.handled);
    assert_eq!(r.camera, CameraCommand::Idle);
    assert!(s.enable_voxel_flicker);
    s.input(InputEvent::KeyPressed(Key::Digit0));
    assert!(!s.enable_voxel_flicker);
}

#[test]
fn releasing_key_zero_is_not_input() {
    let mut s = session();
    let r = s.input(InputEvent::KeyReleased(Key::Digit0));
    assert!(!r.handled);
    assert!(!s.enable_voxel_flicker);
}

#[test]
fn motion_rotates_only_while_dragging() {
    let mut s = session();
    let r = s.input(InputEvent::MouseMotion);
    assert!(!r.handled);
    assert_eq!(r.camera, CameraCommand::Idle);
    assert!(s.input(InputEvent::LeftButton { pressed: true }).handled);
    assert!(s.mouse_left_pressed);
    let r = s.input(InputEvent::MouseMotion);
    assert!(r.handled);
    assert_eq!(r.camera, CameraCommand::Rotate);
    s.input(InputEvent::LeftButton { pressed: false });
    assert_eq!(s.input(InputEvent::MouseMotion).camera, CameraCommand::Idle);
}

#[test]
fn wheel_always_zooms() {
    let mut s = session();
    let r = s.input(InputEvent::MouseWheel);
    assert!(r.handled);
    assert_eq!(r.camera, CameraCommand::Zoom);
}

#[test]
fn close_exits_and_resize_resizes() {
    let mut s = session();
    assert_eq!(s.handle_events(InputEvent::CloseRequested).action, EventAction::Exit);
    assert_eq!(
        s.handle_events(InputEvent::Resized { width: 800, height: 600 }).action,
        EventAction::Resize { width: 800, height: 600 }
    );
    assert_eq!(s.handle_events(InputEvent::OtherWindowEvent).action, EventAction::Continue);
    assert_eq!(s.handle_events(InputEvent::MouseMotion).action, EventAction::Continue);
    let r = s.handle_events(InputEvent::MouseWheel);
    assert_eq!(r.action, EventAction::Continue);
    assert_eq!(r.camera, CameraCommand::Zoom);
}

#[test]
fn update_moves_window_only_with_flicker() {
    let mut s = session();
    s.update();
    assert_eq!(s.cycler.window_start(), 0);
    assert_eq!(s.volumes_refreshed, 1);
    s.input(InputEvent::KeyPressed(Key::Digit0));
    s.update();
    assert_eq!((s.cycler.window_start(), s.cycler.window_end()), (25, 50));
    s.update();
    assert_eq!((s.cycler.window_start(), s.cycler.window_end()), (0, 25));
    assert_eq!(s.volumes_refreshed, 3);
}

#[test]
fn update_counter_wraps() {
    let mut s = session();
    s.volumes_refreshed = u32::MAX;
    s.update();
    assert_eq!(s.volumes_refreshed, 0);
}

#[test]
fn drag_rotate_follows_left_button() {
    let mut d = DragRotate::new();
    assert_eq!(d.process_events(InputEvent::MouseMotion), CameraCommand::Idle);
    assert_eq!(d.process_events(InputEvent::LeftButton { pressed: true }), CameraCommand::Idle);
    assert!(d.pressed);
    assert_eq!(d.process_events(InputEvent::MouseMotion), CameraCommand::Rotate);
    assert_eq!(d.process_events(InputEvent::MouseWheel), CameraCommand::Zoom);
    assert_eq!(d.process_events(InputEvent::CloseRequested), CameraCommand::Idle);
    d.process_events(InputEvent::LeftButton { pressed: false });
    assert!(!d.pressed);
}

#[test]
fn render_failures_are_sorted() {
    assert_eq!(render_action(FrameStatus::Presented), RenderAction::Continue);
    assert_eq!(render_action(FrameStatus::Lost), RenderAction::Reconfigure);
    assert_eq!(render_action(FrameStatus::OutOfMemory), RenderAction::Stop);
    assert_eq!(render_action(FrameStatus::Outdated), RenderAction::Report);
    assert_eq!(render_action(FrameStatus::Timeout), RenderAction::Report);
}

#[test]
fn zero_sized_surface_is_not_drawable() {
    assert!(is_drawable_size(800, 600));
    assert!(!is_drawable_size(0, 600));
    assert!(!is_drawable_size(800, 0));
}

#[test]
fn keys_one_and_two_change_the_update_rate() {
    assert_eq!(changed_updates_per_second(60, InputEvent::KeyPressed(Key::Digit1)), Some(50));
    assert_eq!(changed_updates_per_second(60, InputEvent::KeyPressed(Key::Digit2)), Some(70));
    assert_eq!(changed_updates_per_second(60, InputEvent::KeyReleased(Key::Digit1)), None);
    assert_eq!(changed_updates_per_second(60, InputEvent::KeyPressed(Key::Digit0)), None);
}
