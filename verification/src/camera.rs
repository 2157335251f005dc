//! The keys that steer the camera.
//!
//! The controller only remembers which of the six steering directions are
//! held down. Moving the camera by them is floating-point work and is left to
//! the program.
use crate::virtual_keycode;
use crate::window_event::{ElementState, KeyboardInput, WindowEvent};
use vstd::prelude::*;

verus! {

/// A direction in which the camera can be steered.
#[derive(Debug, Clone, Copy, PartialEq, Eq, Hash)]
pub enum Direction {
    Up,
    Down,
    Left,
    Right,
    Forward,
    Backward,
}

impl Direction {
    /// The direction that a virtual key code steers in: `W`, `S`, `A`, `D` or
    /// the arrow keys for up, down, left and right, `E` for forward and `Q` for
    /// backward.
    pub open spec fn of_virtual_keycode(code: u32) -> Option<Direction> {
        if code == virtual_keycode::W || code == virtual_keycode::UP {
            Some(Direction::Up)
        } else if code == virtual_keycode::S || code == virtual_keycode::DOWN {
            Some(Direction::Down)
        } else if code == virtual_keycode::A || code == virtual_keycode::LEFT {
            Some(Direction::Left)
        } else if code == virtual_keycode::D || code == virtual_keycode::RIGHT {
            Some(Direction::Right)
        } else if code == virtual_keycode::E {
            Some(Direction::Forward)
        } else if code == virtual_keycode::Q {
            Some(Direction::Backward)
        } else {
            None
        }
    }
}

/// The direction that a window event steers in, and whether it starts or
/// stops, if the event is a keyboard input for a steering key.
pub open spec fn steering(event: WindowEvent) -> Option<(Direction, bool)> {
    match event.key() {
        Some((code, state)) => match Direction::of_virtual_keycode(code) {
            Some(direction) => Some((direction, state is Pressed)),
            None => None,
        },
        None => None,
    }
}

/// Which steering keys are held down.
#[derive(Debug, Clone, Copy, PartialEq, Eq, Hash)]
pub struct CameraController {
    pub is_up_pressed: bool,
    pub is_down_pressed: bool,
    pub is_left_pressed: bool,
    pub is_right_pressed: bool,
    pub is_forward_pressed: bool,
    pub is_backward_pressed: bool,
}

impl CameraController {
    /// The controller with the key of `direction` held down or not, as
    /// `is_pressed` says, and the other keys as they are.
    pub open spec fn with(self, direction: Direction, is_pressed: bool) -> Self {
        match direction {
            Direction::Up => CameraController { is_up_pressed: is_pressed, ..self },
            Direction::Down => CameraController { is_down_pressed: is_pressed, ..self },
            Direction::Left => CameraController { is_left_pressed: is_pressed, ..self },
            Direction::Right => CameraController { is_right_pressed: is_pressed, ..self },
            Direction::Forward => CameraController { is_forward_pressed: is_pressed, ..self },
            Direction::Backward => CameraController { is_backward_pressed: is_pressed, ..self },
        }
    }

    /// Whether the key of `direction` is held down.
    pub open spec fn is_pressed(self, direction: Direction) -> bool {
        match direction {
            Direction::Up => self.is_up_pressed,
            Direction::Down => self.is_down_pressed,
            Direction::Left => self.is_left_pressed,
            Direction::Right => self.is_right_pressed,
            Direction::Forward => self.is_forward_pressed,
            Direction::Backward => self.is_backward_pressed,
        }
    }

    /// The controller after `event`.
    pub open spec fn processed(self, event: WindowEvent) -> Self {
        match steering(event) {
            Some((direction, is_pressed)) => self.with(direction, is_pressed),
            None => self,
        }
    }

    /// The controller with no key held down.
    pub open spec fn new_spec() -> Self {
        CameraController {
            is_up_pressed: false,
            is_down_pressed: false,
            is_left_pressed: false,
            is_right_pressed: false,
            is_forward_pressed: false,
            is_backward_pressed: false,
        }
    }

    /// A controller with no key held down.
    #[verifier::when_used_as_spec(new_spec)]
    pub fn new() -> (controller: Self)
        ensures
            controller == Self::new_spec(),
    {
        Self {
            is_up_pressed: false,
            is_down_pressed: false,
            is_right_pressed: false,
            is_left_pressed: false,
            is_forward_pressed: false,
            is_backward_pressed: false,
        }
    }

    /// Takes note of a steering key that `event` presses or releases. Returns
    /// whether the event was one for a steering key.
    pub fn process(&mut self, event: &WindowEvent) -> (handled: bool)
        ensures
            handled == (steering(*event) is Some),
            *final(self) == old(self).processed(*event),
    {
        match event {
            WindowEvent::KeyboardInput {
                input: KeyboardInput { state, virtual_keycode: Some(keycode) },
            } => {
                let is_pressed = match state {
                    ElementState::Pressed => true,
                    ElementState::Released => false,
                };
                match *keycode {
                    virtual_keycode::W | virtual_keycode::UP => {
                        self.is_up_pressed = is_pressed;
                        true
                    },
                    virtual_keycode::S | virtual_keycode::DOWN => {
                        self.is_down_pressed = is_pressed;
                        true
                    },
                    virtual_keycode::A | virtual_keycode::LEFT => {
                        self.is_left_pressed = is_pressed;
                        true
                    },
                    virtual_keycode::D | virtual_keycode::RIGHT => {
                        self.is_right_pressed = is_pressed;
                        true
                    },
                    virtual_keycode::E => {
                        self.is_forward_pressed = is_pressed;
                        true
                    },
                    virtual_keycode::Q => {
                        self.is_backward_pressed = is_pressed;
                        true
                    },
                    _ => false,
                }
            },
            _ => false,
        }
    }
}

/// After an event for a steering key, the key of its direction is held down
/// exactly if the event pressed it, and every other direction is as before.
pub proof fn lemma_process_sets_one_direction(
    controller: CameraController,
    event: WindowEvent,
    direction: Direction,
)
    ensures
        controller.processed(event).is_pressed(direction) == (match steering(event) {
            Some((steered, is_pressed)) if steered == direction => is_pressed,
            _ => controller.is_pressed(direction),
        }),
{
}

} // verus!
