use paopu_rs::camera::CameraController;
use paopu_rs::virtual_keycode;
use paopu_rs::window_event::{ElementState, KeyboardInput, WindowEvent};

fn key(state: ElementState, code: u32) -> WindowEvent {
    WindowEvent::KeyboardInput { input: KeyboardInput { state, virtual_keycode: Some(code) } }
}

fn released() -> CameraController {
    CameraController {
        is_up_pressed: false,
        is_down_pressed: false,
        is_left_pressed: false,
        is_right_pressed: false,
        is_forward_pressed: false,
        is_backward_pressed: false,
    }
}

#[test]
fn new_controller_holds_no_key() {
    assert_eq!(CameraController::new(), released());
}

#[test]
fn w_and_up_steer_up() {
    for code in [virtual_keycode::W, virtual_keycode::UP] {
        let mut c = CameraController::new();
        assert!(c.process(&key(ElementState::Pressed, code)));
        assert_eq!(c, CameraController { is_up_pressed: true, ..released() });
        assert!(c.process(&key(ElementState::Released, code)));
        assert_eq!(c, released());
    }
}

#[test]
fn s_and_down_steer_down() {
    for code in [virtual_keycode::S, virtual_keycode::DOWN] {
        let mut c = CameraController::new();
        assert!(c.process(&key(ElementState::Pressed, code)));
        assert_eq!(c, CameraController { is_down_pressed: true, ..released() });
    }
}

#[test]
fn a_and_left_steer_left() {
    for code in [virtual_keycode::A, virtual_keycode::LEFT] {
        let mut c = CameraController::new();
        assert!(c.process(&key(ElementState::Pressed, code)));
        assert_eq!(c, CameraController { is_left_pressed: true, ..released() });
    }
}

#[test]
fn d_and_right_steer_right() {
    for code in [virtual_keycode::D, virtual_keycode::RIGHT] {
        let mut c = CameraController::new();
        assert!(c.process(&key(ElementState::Pressed, code)));
        assert_eq!(c, CameraController { is_right_pressed: true, ..released() });
    }
}

#[test]
fn e_steers_forward_and_q_backward() {
    let mut c = CameraController::new();
    assert!(c.process(&key(ElementState::Pressed, virtual_keycode::E)));
    assert_eq!(c, CameraController { is_forward_pressed: true, ..released() });
    assert!(c.process(&key(ElementState::Pressed, virtual_keycode::Q)));
    assert_eq!(
        c,
        CameraController { is_forward_pressed: true, is_backward_pressed: true, ..released() }
    );
    assert!(c.process(&key(ElementState::Released, virtual_keycode::E)));
    assert_eq!(c, CameraController { is_backward_pressed: true, ..released() });
}

#[test]
fn other_keys_and_events_are_not_handled() {
    let mut c = CameraController { is_left_pressed: true, ..released() };
    assert!(!c.process(&key(ElementState::Pressed, virtual_keycode::ESCAPE)));
    assert!(!c.process(&key(ElementState::Pressed, virtual_keycode::Z)));
    assert!(!c.process(&WindowEvent::CloseRequested));
    assert!(!c.process(&WindowEvent::KeyboardInput {
        input: KeyboardInput { state: ElementState::Pressed, virtual_keycode: None }
    }));
    assert_eq!(c, CameraController { is_left_pressed: true, ..released() });
}
