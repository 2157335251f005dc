//! Keyboard input: the library's own key codes, and the keys that the last
//! event pressed and released.
use crate::virtual_keycode;
use crate::window_event::{ElementState, KeyboardInput, WindowEvent};
use std::collections::HashSet;
use vstd::prelude::*;

verus! {

/// The keys that the library knows, named without reference to any windowing
/// layer, so that programs written against them survive a change of that
/// layer.
#[derive(Debug, Copy, Clone, PartialEq, Eq, Hash)]
pub enum PKeyCode {
    // Numerical keys
    Key0,
    Key1,
    Key2,
    Key3,
    Key4,
    Key5,
    Key6,
    Key7,
    Key8,
    Key9,
    // Alphabet
    A,
    B,
    C,
    D,
    E,
    F,
    G,
    H,
    I,
    J,
    K,
    L,
    M,
    N,
    O,
    P,
    Q,
    R,
    S,
    T,
    U,
    V,
    W,
    X,
    Y,
    Z,
    //
    Up,
    Down,
    Left,
    Right,
    Return,
    Space,
    Tab,
    Escape,
    // Modifiers
    LShift,
    RShift,
    LCtrl,
    RCtrl,
    LAlt,
    RAlt,
}

impl PKeyCode {
    /// The number of the key: its position in the enumeration, from zero.
    pub open spec fn spec_number(self) -> u32 {
        match self {
            PKeyCode::Key0 => 0,
            PKeyCode::Key1 => 1,
            PKeyCode::Key2 => 2,
            PKeyCode::Key3 => 3,
            PKeyCode::Key4 => 4,
            PKeyCode::Key5 => 5,
            PKeyCode::Key6 => 6,
            PKeyCode::Key7 => 7,
            PKeyCode::Key8 => 8,
            PKeyCode::Key9 => 9,
            PKeyCode::A => 10,
            PKeyCode::B => 11,
            PKeyCode::C => 12,
            PKeyCode::D => 13,
            PKeyCode::E => 14,
            PKeyCode::F => 15,
            PKeyCode::G => 16,
            PKeyCode::H => 17,
            PKeyCode::I => 18,
            PKeyCode::J => 19,
            PKeyCode::K => 20,
            PKeyCode::L => 21,
            PKeyCode::M => 22,
            PKeyCode::N => 23,
            PKeyCode::O => 24,
            PKeyCode::P => 25,
            PKeyCode::Q => 26,
            PKeyCode::R => 27,
            PKeyCode::S => 28,
            PKeyCode::T => 29,
            PKeyCode::U => 30,
            PKeyCode::V => 31,
            PKeyCode::W => 32,
            PKeyCode::X => 33,
            PKeyCode::Y => 34,
            PKeyCode::Z => 35,
            PKeyCode::Up => 36,
            PKeyCode::Down => 37,
            PKeyCode::Left => 38,
            PKeyCode::Right => 39,
            PKeyCode::Return => 40,
            PKeyCode::Space => 41,
            PKeyCode::Tab => 42,
            PKeyCode::Escape => 43,
            PKeyCode::LShift => 44,
            PKeyCode::RShift => 45,
            PKeyCode::LCtrl => 46,
            PKeyCode::RCtrl => 47,
            PKeyCode::LAlt => 48,
            PKeyCode::RAlt => 49,
        }
    }

    #[verifier::when_used_as_spec(spec_number)]
    pub fn number(self) -> (n: u32)
        ensures
            n == self.spec_number(),
            n < 50,
    {
        match self {
            PKeyCode::Key0 => 0,
            PKeyCode::Key1 => 1,
            PKeyCode::Key2 => 2,
            PKeyCode::Key3 => 3,
            PKeyCode::Key4 => 4,
            PKeyCode::Key5 => 5,
            PKeyCode::Key6 => 6,
            PKeyCode::Key7 => 7,
            PKeyCode::Key8 => 8,
            PKeyCode::Key9 => 9,
            PKeyCode::A => 10,
            PKeyCode::B => 11,
            PKeyCode::C => 12,
            PKeyCode::D => 13,
            PKeyCode::E => 14,
            PKeyCode::F => 15,
            PKeyCode::G => 16,
            PKeyCode::H => 17,
            PKeyCode::I => 18,
            PKeyCode::J => 19,
            PKeyCode::K => 20,
            PKeyCode::L => 21,
            PKeyCode::M => 22,
            PKeyCode::N => 23,
            PKeyCode::O => 24,
            PKeyCode::P => 25,
            PKeyCode::Q => 26,
            PKeyCode::R => 27,
            PKeyCode::S => 28,
            PKeyCode::T => 29,
            PKeyCode::U => 30,
            PKeyCode::V => 31,
            PKeyCode::W => 32,
            PKeyCode::X => 33,
            PKeyCode::Y => 34,
            PKeyCode::Z => 35,
            PKeyCode::Up => 36,
            PKeyCode::Down => 37,
            PKeyCode::Left => 38,
            PKeyCode::Right => 39,
            PKeyCode::Return => 40,
            PKeyCode::Space => 41,
            PKeyCode::Tab => 42,
            PKeyCode::Escape => 43,
            PKeyCode::LShift => 44,
            PKeyCode::RShift => 45,
            PKeyCode::LCtrl => 46,
            PKeyCode::RCtrl => 47,
            PKeyCode::LAlt => 48,
            PKeyCode::RAlt => 49,
        }
    }

    /// The key that a virtual key code of the windowing layer stands for, if
    /// the library knows the key. No virtual key code stands for a modifier.
    pub open spec fn of_virtual_keycode(code: u32) -> Option<PKeyCode> {
        if code == virtual_keycode::A {
            Some(PKeyCode::A)
        } else if code == virtual_keycode::B {
            Some(PKeyCode::B)
        } else if code == virtual_keycode::C {
            Some(PKeyCode::C)
        } else if code == virtual_keycode::D {
            Some(PKeyCode::D)
        } else if code == virtual_keycode::E {
            Some(PKeyCode::E)
        } else if code == virtual_keycode::F {
            Some(PKeyCode::F)
        } else if code == virtual_keycode::G {
            Some(PKeyCode::G)
        } else if code == virtual_keycode::H {
            Some(PKeyCode::H)
        } else if code == virtual_keycode::I {
            Some(PKeyCode::I)
        } else if code == virtual_keycode::J {
            Some(PKeyCode::J)
        } else if code == virtual_keycode::K {
            Some(PKeyCode::K)
        } else if code == virtual_keycode::L {
            Some(PKeyCode::L)
        } else if code == virtual_keycode::M {
            Some(PKeyCode::M)
        } else if code == virtual_keycode::N {
            Some(PKeyCode::N)
        } else if code == virtual_keycode::O {
            Some(PKeyCode::O)
        } else if code == virtual_keycode::P {
            Some(PKeyCode::P)
        } else if code == virtual_keycode::Q {
            Some(PKeyCode::Q)
        } else if code == virtual_keycode::R {
            Some(PKeyCode::R)
        } else if code == virtual_keycode::S {
            Some(PKeyCode::S)
        } else if code == virtual_keycode::T {
            Some(PKeyCode::T)
        } else if code == virtual_keycode::U {
            Some(PKeyCode::U)
        } else if code == virtual_keycode::V {
            Some(PKeyCode::V)
        } else if code == virtual_keycode::W {
            Some(PKeyCode::W)
        } else if code == virtual_keycode::X {
            Some(PKeyCode::X)
        } else if code == virtual_keycode::Y {
            Some(PKeyCode::Y)
        } else if code == virtual_keycode::Z {
            Some(PKeyCode::Z)
        } else if code == virtual_keycode::KEY0 {
            Some(PKeyCode::Key0)
        } else if code == virtual_keycode::KEY1 {
            Some(PKeyCode::Key1)
        } else if code == virtual_keycode::KEY2 {
            Some(PKeyCode::Key2)
        } else if code == virtual_keycode::KEY3 {
            Some(PKeyCode::Key3)
        } else if code == virtual_keycode::KEY4 {
            Some(PKeyCode::Key4)
        } else if code == virtual_keycode::KEY5 {
            Some(PKeyCode::Key5)
        } else if code == virtual_keycode::KEY6 {
            Some(PKeyCode::Key6)
        } else if code == virtual_keycode::KEY7 {
            Some(PKeyCode::Key7)
        } else if code == virtual_keycode::KEY8 {
            Some(PKeyCode::Key8)
        } else if code == virtual_keycode::KEY9 {
            Some(PKeyCode::Key9)
        } else if code == virtual_keycode::UP {
            Some(PKeyCode::Up)
        } else if code == virtual_keycode::DOWN {
            Some(PKeyCode::Down)
        } else if code == virtual_keycode::LEFT {
            Some(PKeyCode::Left)
        } else if code == virtual_keycode::RIGHT {
            Some(PKeyCode::Right)
        } else if code == virtual_keycode::RETURN {
            Some(PKeyCode::Return)
        } else if code == virtual_keycode::SPACE {
            Some(PKeyCode::Space)
        } else if code == virtual_keycode::TAB {
            Some(PKeyCode::Tab)
        } else if code == virtual_keycode::ESCAPE {
            Some(PKeyCode::Escape)
        } else {
            None
        }
    }
}

/// Distinct keys have distinct numbers.
pub proof fn lemma_number_injective(a: PKeyCode, b: PKeyCode)
    requires
        a.spec_number() == b.spec_number(),
    ensures
        a == b,
{
}

/// Distinct virtual key codes stand for distinct keys.
pub proof fn lemma_virtual_keycode_injective(c1: u32, c2: u32)
    requires
        PKeyCode::of_virtual_keycode(c1) is Some,
        PKeyCode::of_virtual_keycode(c1) == PKeyCode::of_virtual_keycode(c2),
    ensures
        c1 == c2,
{
}

/// No virtual key code stands for a modifier key: the keys that the window
/// events can report are those numbered below `LShift`.
pub proof fn lemma_virtual_keycode_never_modifier(code: u32)
    ensures
        PKeyCode::of_virtual_keycode(code) matches Some(key) ==> key.spec_number()
            < PKeyCode::LShift.spec_number(),
{
}

/// The letters have the same number on both sides, and a digit key other than
/// `0`, which the windowing layer puts after `9`, is numbered one higher here.
pub proof fn lemma_virtual_keycode_letters_and_digits(code: u32)
    ensures
        virtual_keycode::A <= code <= virtual_keycode::Z ==> (PKeyCode::of_virtual_keycode(code)
            matches Some(key) && key.spec_number() == code),
        code <= virtual_keycode::KEY9 ==> (PKeyCode::of_virtual_keycode(code) matches Some(key)
            && key.spec_number() == code + 1),
        PKeyCode::of_virtual_keycode(virtual_keycode::KEY0) == Some(PKeyCode::Key0),
{
}

/// The key that a window event reports, with its state, if the event is a
/// keyboard input for a key that the library knows.
pub open spec fn key_event(event: WindowEvent) -> Option<(PKeyCode, ElementState)> {
    match event.key() {
        Some((code, state)) => match PKeyCode::of_virtual_keycode(code) {
            Some(key) => Some((key, state)),
            None => None,
        },
        None => None,
    }
}

/// The keys that a window event presses: its key, if it reports one as
/// pressed.
pub open spec fn pressed_by(event: WindowEvent) -> Set<PKeyCode> {
    match key_event(event) {
        Some((key, ElementState::Pressed)) => set![key],
        _ => Set::empty(),
    }
}

/// The keys that a window event releases: its key, if it reports one as
/// released.
pub open spec fn released_by(event: WindowEvent) -> Set<PKeyCode> {
    match key_event(event) {
        Some((key, ElementState::Released)) => set![key],
        _ => Set::empty(),
    }
}

/// An event presses or releases at most one key, and never both.
pub proof fn lemma_one_key_per_event(event: WindowEvent)
    ensures
        pressed_by(event).finite(),
        released_by(event).finite(),
        pressed_by(event).len() + released_by(event).len() == (if key_event(event) is Some {
            1nat
        } else {
            0nat
        }),
        pressed_by(event).disjoint(released_by(event)),
{
}

/// The keys pressed and the keys released by the last window event.
pub struct Input {
    pressed_keys: HashSet<u32>,
    released_keys: HashSet<u32>,
}

impl Input {
    /// The keys that the last event pressed.
    pub closed spec fn pressed(&self) -> Set<PKeyCode> {
        Set::new(|key: PKeyCode| self.pressed_keys@.contains(key.spec_number()))
    }

    /// The keys that the last event released.
    pub closed spec fn released(&self) -> Set<PKeyCode> {
        Set::new(|key: PKeyCode| self.released_keys@.contains(key.spec_number()))
    }

    pub fn new() -> (input: Self)
        ensures
            input.pressed() == Set::<PKeyCode>::empty(),
            input.released() == Set::<PKeyCode>::empty(),
    {
        Self { pressed_keys: HashSet::new(), released_keys: HashSet::new() }
    }

    /// Forgets the keys of the event before, then records the key of `event`
    /// if it is a keyboard input for a key that the library knows. Returns
    /// whether it was one.
    pub fn update(&mut self, event: &WindowEvent) -> (was_input_event: bool)
        ensures
            was_input_event == (key_event(*event) is Some),
            final(self).pressed() == pressed_by(*event),
            final(self).released() == released_by(*event),
    {
        self.pressed_keys.clear();
        self.released_keys.clear();

        let mut was_input_event = true;

        match event {
            WindowEvent::KeyboardInput {
                input: KeyboardInput { state, virtual_keycode: Some(key_code) },
            } => {
                match *key_code {
                    virtual_keycode::A => self.add_key_input(PKeyCode::A, state),
                    virtual_keycode::B => self.add_key_input(PKeyCode::B, state),
                    virtual_keycode::C => self.add_key_input(PKeyCode::C, state),
                    virtual_keycode::D => self.add_key_input(PKeyCode::D, state),
                    virtual_keycode::E => self.add_key_input(PKeyCode::E, state),
                    virtual_keycode::F => self.add_key_input(PKeyCode::F, state),
                    virtual_keycode::G => self.add_key_input(PKeyCode::G, state),
                    virtual_keycode::H => self.add_key_input(PKeyCode::H, state),
                    virtual_keycode::I => self.add_key_input(PKeyCode::I, state),
                    virtual_keycode::J => self.add_key_input(PKeyCode::J, state),
                    virtual_keycode::K => self.add_key_input(PKeyCode::K, state),
                    virtual_keycode::L => self.add_key_input(PKeyCode::L, state),
                    virtual_keycode::M => self.add_key_input(PKeyCode::M, state),
                    virtual_keycode::N => self.add_key_input(PKeyCode::N, state),
                    virtual_keycode::O => self.add_key_input(PKeyCode::O, state),
                    virtual_keycode::P => self.add_key_input(PKeyCode::P, state),
                    virtual_keycode::Q => self.add_key_input(PKeyCode::Q, state),
                    virtual_keycode::R => self.add_key_input(PKeyCode::R, state),
                    virtual_keycode::S => self.add_key_input(PKeyCode::S, state),
                    virtual_keycode::T => self.add_key_input(PKeyCode::T, state),
                    virtual_keycode::U => self.add_key_input(PKeyCode::U, state),
                    virtual_keycode::V => self.add_key_input(PKeyCode::V, state),
                    virtual_keycode::W => self.add_key_input(PKeyCode::W, state),
                    virtual_keycode::X => self.add_key_input(PKeyCode::X, state),
                    virtual_keycode::Y => self.add_key_input(PKeyCode::Y, state),
                    virtual_keycode::Z => self.add_key_input(PKeyCode::Z, state),
                    virtual_keycode::KEY0 => self.add_key_input(PKeyCode::Key0, state),
                    virtual_keycode::KEY1 => self.add_key_input(PKeyCode::Key1, state),
                    virtual_keycode::KEY2 => self.add_key_input(PKeyCode::Key2, state),
                    virtual_keycode::KEY3 => self.add_key_input(PKeyCode::Key3, state),
                    virtual_keycode::KEY4 => self.add_key_input(PKeyCode::Key4, state),
                    virtual_keycode::KEY5 => self.add_key_input(PKeyCode::Key5, state),
                    virtual_keycode::KEY6 => self.add_key_input(PKeyCode::Key6, state),
                    virtual_keycode::KEY7 => self.add_key_input(PKeyCode::Key7, state),
                    virtual_keycode::KEY8 => self.add_key_input(PKeyCode::Key8, state),
                    virtual_keycode::KEY9 => self.add_key_input(PKeyCode::Key9, state),
                    virtual_keycode::UP => self.add_key_input(PKeyCode::Up, state),
                    virtual_keycode::DOWN => self.add_key_input(PKeyCode::Down, state),
                    virtual_keycode::LEFT => self.add_key_input(PKeyCode::Left, state),
                    virtual_keycode::RIGHT => self.add_key_input(PKeyCode::Right, state),
                    virtual_keycode::RETURN => self.add_key_input(PKeyCode::Return, state),
                    virtual_keycode::SPACE => self.add_key_input(PKeyCode::Space, state),
                    virtual_keycode::TAB => self.add_key_input(PKeyCode::Tab, state),
                    virtual_keycode::ESCAPE => self.add_key_input(PKeyCode::Escape, state),
                    _ => was_input_event = false,
                }
            },
            _ => was_input_event = false,
        }

        was_input_event
    }

    /// Records `code` among the pressed or the released keys, as `state` says.
    pub fn add_key_input(&mut self, code: PKeyCode, state: &ElementState)
        ensures
            final(self).pressed() == (match *state {
                ElementState::Pressed => old(self).pressed().insert(code),
                ElementState::Released => old(self).pressed(),
            }),
            final(self).released() == (match *state {
                ElementState::Pressed => old(self).released(),
                ElementState::Released => old(self).released().insert(code),
            }),
    {
        broadcast use vstd::std_specs::hash::group_hash_axioms;

        match state {
            ElementState::Pressed => {
                self.pressed_keys.insert(code.number());
                assert forall|key: PKeyCode|
                    self.pressed().contains(key) == old(self).pressed().insert(code).contains(
                        key,
                    ) by {
                    if key.spec_number() == code.spec_number() {
                        lemma_number_injective(key, code);
                    }
                }
                assert(self.pressed() =~= old(self).pressed().insert(code));
            },
            ElementState::Released => {
                self.released_keys.insert(code.number());
                assert forall|key: PKeyCode|
                    self.released().contains(key) == old(self).released().insert(code).contains(
                        key,
                    ) by {
                    if key.spec_number() == code.spec_number() {
                        lemma_number_injective(key, code);
                    }
                }
                assert(self.released() =~= old(self).released().insert(code));
            },
        }
    }

    /// Whether the last event pressed `key_code`.
    pub fn get_key_pressed(&mut self, key_code: PKeyCode) -> (pressed: bool)
        ensures
            pressed == old(self).pressed().contains(key_code),
            *final(self) == *old(self),
    {
        broadcast use vstd::std_specs::hash::group_hash_axioms;

        let number: u32 = key_code.number();
        self.pressed_keys.contains(&number)
    }
}

} // verus!
