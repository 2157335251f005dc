use paopu_rs::input::{Input, PKeyCode};
use paopu_rs::virtual_keycode;
use paopu_rs::window_event::{ElementState, KeyboardInput, PhysicalSize, WindowEvent};

fn key(state: ElementState, code: u32) -> WindowEvent {
    WindowEvent::KeyboardInput { input: KeyboardInput { state, virtual_keycode: Some(code) } }
}

const ALL_KEYS: [PKeyCode; 50] = [
    PKeyCode::Key0,
    PKeyCode::Key1,
    PKeyCode::Key2,
    PKeyCode::Key3,
    PKeyCode::Key4,
    PKeyCode::Key5,
    PKeyCode::Key6,
    PKeyCode::Key7,
    PKeyCode::Key8,
    PKeyCode::Key9,
    PKeyCode::A,
    PKeyCode::B,
    PKeyCode::C,
    PKeyCode::D,
    PKeyCode::E,
    PKeyCode::F,
    PKeyCode::G,
    PKeyCode::H,
    PKeyCode::I,
    PKeyCode::J,
    PKeyCode::K,
    PKeyCode::L,
    PKeyCode::M,
    PKeyCode::N,
    PKeyCode::O,
    PKeyCode::P,
    PKeyCode::Q,
    PKeyCode::R,
    PKeyCode::S,
    PKeyCode::T,
    PKeyCode::U,
    PKeyCode::V,
    PKeyCode::W,
    PKeyCode::X,
    PKeyCode::Y,
    PKeyCode::Z,
    PKeyCode::Up,
    PKeyCode::Down,
    PKeyCode::Left,
    PKeyCode::Right,
    PKeyCode::Return,
    PKeyCode::Space,
    PKeyCode::Tab,
    PKeyCode::Escape,
    PKeyCode::LShift,
    PKeyCode::RShift,
    PKeyCode::LCtrl,
    PKeyCode::RCtrl,
    PKeyCode::LAlt,
    PKeyCode::RAlt,
];

fn pressed_keys(input: &mut Input) -> Vec<PKeyCode> {
    ALL_KEYS.iter().copied().filter(|k| input.get_key_pressed(*k)).collect()
}

#[test]
fn new_input_has_no_key_pressed() {
    let mut input = Input::new();
    assert_eq!(pressed_keys(&mut input), vec![]);
}

#[test]
fn key_numbers_follow_the_enumeration() {
    for (i, k) in ALL_KEYS.iter().enumerate() {
        assert_eq!(k.number() as usize, i);
    }
    assert_eq!(PKeyCode::Key0.number(), 0);
    assert_eq!(PKeyCode::A.number(), 10);
    assert_eq!(PKeyCode::Escape.number(), 43);
    assert_eq!(PKeyCode::RAlt.number(), 49);
}

#[test]
fn escape_press_is_recorded() {
    let mut input = Input::new();
    assert!(input.update(&key(ElementState::Pressed, virtual_keycode::ESCAPE)));
    assert!(input.get_key_pressed(PKeyCode::Escape));
    assert_eq!(pressed_keys(&mut input), vec![PKeyCode::Escape]);
}

#[test]
fn release_is_an_input_event_but_presses_nothing() {
    let mut input = Input::new();
    assert!(input.update(&key(ElementState::Released, virtual_keycode::A)));
    assert_eq!(pressed_keys(&mut input), vec![]);
}

#[test]
fn update_forgets_the_event_before() {
    let mut input = Input::new();
    assert!(input.update(&key(ElementState::Pressed, virtual_keycode::A)));
    assert!(input.update(&key(ElementState::Pressed, virtual_keycode::B)));
    assert_eq!(pressed_keys(&mut input), vec![PKeyCode::B]);
    assert!(!input.update(&WindowEvent::CloseRequested));
    assert_eq!(pressed_keys(&mut input), vec![]);
}

#[test]
fn unknown_key_is_no_input_event() {
    let mut input = Input::new();
    // F1 follows Escape in the windowing layer's enumeration.
    assert!(!input.update(&key(ElementState::Pressed, 37)));
    assert!(!input.update(&key(ElementState::Pressed, u32::MAX)));
    assert_eq!(pressed_keys(&mut input), vec![]);
}

#[test]
fn keyboard_input_without_key_code_is_no_input_event() {
    let mut input = Input::new();
    let event = WindowEvent::KeyboardInput {
        input: KeyboardInput { state: ElementState::Pressed, virtual_keycode: None },
    };
    assert!(!input.update(&event));
}

#[test]
fn other_window_events_are_no_input_events() {
    let mut input = Input::new();
    assert!(!input.update(&WindowEvent::Resized(PhysicalSize::new(3, 4))));
    assert!(!input.update(&WindowEvent::ScaleFactorChanged {
        new_inner_size: PhysicalSize::new(3, 4)
    }));
    assert!(!input.update(&WindowEvent::Other));
}

#[test]
fn every_known_key_is_mapped() {
    let table: [(u32, PKeyCode); 44] = [
        (virtual_keycode::A, PKeyCode::A),
        (virtual_keycode::B, PKeyCode::B),
        (virtual_keycode::C, PKeyCode::C),
        (virtual_keycode::D, PKeyCode::D),
        (virtual_keycode::E, PKeyCode::E),
        (virtual_keycode::F, PKeyCode::F),
        (virtual_keycode::G, PKeyCode::G),
        (virtual_keycode::H, PKeyCode::H),
        (virtual_keycode::I, PKeyCode::I),
        (virtual_keycode::J, PKeyCode::J),
        (virtual_keycode::K, PKeyCode::K),
        (virtual_keycode::L, PKeyCode::L),
        (virtual_keycode::M, PKeyCode::M),
        (virtual_keycode::N, PKeyCode::N),
        (virtual_keycode::O, PKeyCode::O),
        (virtual_keycode::P, PKeyCode::P),
        (virtual_keycode::Q, PKeyCode::Q),
        (virtual_keycode::R, PKeyCode::R),
        (virtual_keycode::S, PKeyCode::S),
        (virtual_keycode::T, PKeyCode::T),
        (virtual_keycode::U, PKeyCode::U),
        (virtual_keycode::V, PKeyCode::V),
        (virtual_keycode::W, PKeyCode::W),
        (virtual_keycode::X, PKeyCode::X),
        (virtual_keycode::Y, PKeyCode::Y),
        (virtual_keycode::Z, PKeyCode::Z),
        (virtual_keycode::KEY0, PKeyCode::Key0),
        (virtual_keycode::KEY1, PKeyCode::Key1),
        (virtual_keycode::KEY2, PKeyCode::Key2),
        (virtual_keycode::KEY3, PKeyCode::Key3),
        (virtual_keycode::KEY4, PKeyCode::Key4),
        (virtual_keycode::KEY5, PKeyCode::Key5),
        (virtual_keycode::KEY6, PKeyCode::Key6),
        (virtual_keycode::KEY7, PKeyCode::Key7),
        (virtual_keycode::KEY8, PKeyCode::Key8),
        (virtual_keycode::KEY9, PKeyCode::Key9),
        (virtual_keycode::UP, PKeyCode::Up),
        (virtual_keycode::DOWN, PKeyCode::Down),
        (virtual_keycode::LEFT, PKeyCode::Left),
        (virtual_keycode::RIGHT, PKeyCode::Right),
        (virtual_keycode::RETURN, PKeyCode::Return),
        (virtual_keycode::SPACE, PKeyCode::Space),
        (virtual_keycode::TAB, PKeyCode::Tab),
        (virtual_keycode::ESCAPE, PKeyCode::Escape),
    ];
    for (code, expected) in table {
        let mut input = Input::new();
        assert!(input.update(&key(ElementState::Pressed, code)));
        assert_eq!(pressed_keys(&mut input), vec![expected]);
    }
}

#[test]
fn only_the_44_known_codes_are_input_events() {
    let mut known = 0;
    for code in 0..400u32 {
        let mut input = Input::new();
        if input.update(&key(ElementState::Pressed, code)) {
            known += 1;
            let pressed = pressed_keys(&mut input);
            assert_eq!(pressed.len(), 1);
            // No window event reports a modifier key.
            assert!(pressed[0].number() < PKeyCode::LShift.number());
        }
    }
    assert_eq!(known, 44);
}

#[test]
fn add_key_input_keeps_what_was_added_before() {
    let mut input = Input::new();
    input.add_key_input(PKeyCode::LShift, &ElementState::Pressed);
    input.add_key_input(PKeyCode::A, &ElementState::Pressed);
    input.add_key_input(PKeyCode::B, &ElementState::Released);
    input.add_key_input(PKeyCode::A, &ElementState::Pressed);
    assert_eq!(pressed_keys(&mut input), vec![PKeyCode::A, PKeyCode::LShift]);
    assert!(!input.get_key_pressed(PKeyCode::B));
}
