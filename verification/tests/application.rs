use paopu_rs::application::{Application, LoopFunction};
use paopu_rs::application_event::{ApplicationEvent, EventBox};
use paopu_rs::application_events::{ApplicationEventID, RendererSetup, WindowResize};
use paopu_rs::input::{Input, PKeyCode};
use paopu_rs::module::{Module, ModuleBox, RENDERER_TYPE, WINDOW_TYPE};
use paopu_rs::renderer::{FrameAction, Renderer, SwapChainError};
use paopu_rs::state_descriptor::StateDescriptor;
use paopu_rs::virtual_keycode;
use paopu_rs::window::Window;
use paopu_rs::window_event::{ElementState, KeyboardInput, PhysicalSize, WindowEvent};

fn key(state: ElementState, code: u32) -> WindowEvent {
    WindowEvent::KeyboardInput { input: KeyboardInput { state, virtual_keycode: Some(code) } }
}

fn renderer_state(app: &mut Application) -> Option<StateDescriptor> {
    app.get_module::<Renderer>().unwrap().state_descriptor
}

#[test]
fn default_application_is_empty() {
    let app = Application::default();
    assert!(!app.has_module::<Renderer>());
    assert!(!app.has_module::<Window>());
    assert!(!app.requested_termination());
    let (loop_function, _) = app.run();
    assert_eq!(loop_function, LoopFunction::NoLoop);
}

#[test]
fn type_keys_differ() {
    assert_eq!(Window::key(), WINDOW_TYPE);
    assert_eq!(Renderer::key(), RENDERER_TYPE);
    assert_ne!(Window::key(), Renderer::key());
}

#[test]
fn boxes_give_back_what_went_in() {
    let mut boxed = Renderer { state_descriptor: None }.into_box();
    assert!(matches!(boxed, ModuleBox::Renderer(_)));
    assert!(Window::downcast_ref(&boxed).is_none());
    assert!(Window::downcast_mut(&mut boxed).is_none());
    assert_eq!(Renderer::downcast_ref(&boxed).unwrap().state_descriptor, None);
    Renderer::downcast_mut(&mut boxed).unwrap().create_state(PhysicalSize::new(1, 2));
    assert_eq!(
        Renderer::downcast_ref(&boxed).unwrap().state_descriptor,
        Some(StateDescriptor::new(PhysicalSize::new(1, 2)))
    );
    let mut window = Window::default().into_box();
    assert!(Renderer::downcast_ref(&window).is_none());
    assert!(Renderer::downcast_mut(&mut window).is_none());
    assert_eq!(Window::downcast_ref(&window).unwrap().get_title(), "Paopu-rs Application");
    assert_eq!(Window::downcast_mut(&mut window).unwrap().get_title(), "Paopu-rs Application");
}

#[test]
fn adding_the_renderer_keeps_the_loop() {
    let mut app = Application::default();
    app.add_module::<Renderer>(Renderer::default());
    assert!(app.has_module::<Renderer>());
    assert!(!app.has_module::<Window>());
    assert_eq!(renderer_state(&mut app), None);
    let (loop_function, _) = app.run();
    assert_eq!(loop_function, LoopFunction::NoLoop);
}

#[test]
fn adding_the_window_sets_the_window_loop() {
    let mut app = Application::default();
    app.add_module(Renderer::default()).add_module(Window::default());
    assert!(app.has_module::<Renderer>());
    assert!(app.has_module::<Window>());
    assert_eq!(app.get_module::<Window>().unwrap().get_title(), "Paopu-rs Application");
    assert_eq!(app.get_module_mut::<Window>().unwrap().get_title(), "Paopu-rs Application");
    let (loop_function, mut app) = app.run();
    assert_eq!(loop_function, LoopFunction::WindowLoop);
    // The loop was handed out: the application is left without one.
    assert!(app.has_module::<Renderer>());
    assert!(app.has_module::<Window>());
    app.update();
    let (loop_function, _) = app.run();
    assert_eq!(loop_function, LoopFunction::NoLoop);
}

#[test]
fn set_loop_function_can_be_chained() {
    let mut app = Application::default();
    app.set_loop_function(LoopFunction::WindowLoop).add_module(Renderer::default());
    let (loop_function, app) = app.run();
    assert_eq!(loop_function, LoopFunction::WindowLoop);
    assert!(app.has_module::<Renderer>());
}

#[test]
fn a_second_module_of_a_type_replaces_the_first() {
    let mut app = Application::default();
    let mut first = Renderer::default();
    first.create_state(PhysicalSize::new(640, 480));
    app.add_module(first);
    assert_eq!(renderer_state(&mut app), Some(StateDescriptor::new(PhysicalSize::new(640, 480))));
    app.add_module(Renderer::default());
    assert_eq!(renderer_state(&mut app), None);
}

#[test]
fn get_module_mut_changes_the_module_in_place() {
    let mut app = Application::default();
    app.add_module(Window::default()).add_module(Renderer::default());
    app.get_module_mut::<Renderer>().unwrap().create_state(PhysicalSize::new(3, 4));
    assert_eq!(renderer_state(&mut app), Some(StateDescriptor::new(PhysicalSize::new(3, 4))));
    assert_eq!(app.get_module::<Window>().unwrap().get_title(), "Paopu-rs Application");
}

#[test]
fn create_state_and_window_resize() {
    let mut app = Application::default();
    app.add_module(Renderer::default());
    assert_eq!(app.window_resize(10, 20), None);
    app.create_state(PhysicalSize::new(640, 480));
    assert_eq!(renderer_state(&mut app), Some(StateDescriptor::new(PhysicalSize::new(640, 480))));
    assert_eq!(app.window_resize(800, 600), Some(PhysicalSize::new(800, 600)));
    assert_eq!(renderer_state(&mut app), Some(StateDescriptor::new(PhysicalSize::new(800, 600))));
    assert_eq!(app.window_resize(0, 0), Some(PhysicalSize::new(800, 600)));
    assert_eq!(renderer_state(&mut app), Some(StateDescriptor::new(PhysicalSize::new(800, 600))));
}

#[test]
fn render_decides_on_the_outcome_of_the_frame() {
    let mut app = Application::default();
    app.add_module(Renderer::default());
    app.create_state(PhysicalSize::new(640, 480));
    assert_eq!(app.render(Ok(())), FrameAction::Continue);
    assert_eq!(
        app.render(Err(SwapChainError::Lost)),
        FrameAction::RecreateSwapChain(PhysicalSize::new(640, 480))
    );
    assert_eq!(
        app.render(Err(SwapChainError::Outdated)),
        FrameAction::Report(SwapChainError::Outdated)
    );
    assert_eq!(
        app.render(Err(SwapChainError::Timeout)),
        FrameAction::Report(SwapChainError::Timeout)
    );
    assert_eq!(app.render(Err(SwapChainError::OutOfMemory)), FrameAction::Shutdown);
    assert_eq!(renderer_state(&mut app), Some(StateDescriptor::new(PhysicalSize::new(640, 480))));
}

#[test]
fn escape_requests_termination_until_the_next_event() {
    let mut app = Application::default();
    let mut input = Input::new();
    assert!(app.update_input(&mut input, &key(ElementState::Pressed, virtual_keycode::A)));
    assert!(!app.requested_termination());
    assert!(input.get_key_pressed(PKeyCode::A));
    assert!(app.update_input(&mut input, &key(ElementState::Pressed, virtual_keycode::ESCAPE)));
    assert!(app.requested_termination());
    assert!(input.get_key_pressed(PKeyCode::Escape));
    assert!(!app.update_input(&mut input, &WindowEvent::Other));
    assert!(!app.requested_termination());
    assert!(!input.get_key_pressed(PKeyCode::Escape));
}

#[test]
fn releasing_escape_requests_nothing() {
    let mut app = Application::default();
    let mut input = Input::new();
    assert!(app.update_input(&mut input, &key(ElementState::Released, virtual_keycode::ESCAPE)));
    assert!(!app.requested_termination());
}

#[test]
fn termination_can_be_requested_directly() {
    let mut app = Application::default();
    app.set_requested_termination(true);
    assert!(app.requested_termination());
    app.set_requested_termination(false);
    assert!(!app.requested_termination());
}

#[test]
fn events_know_their_identifiers() {
    assert_eq!(
        WindowResize { width: 1, height: 2 }.get_id(),
        Some(ApplicationEventID::WindowResize)
    );
    assert_eq!(RendererSetup::default().get_id(), Some(ApplicationEventID::RendererSetup));
    assert_eq!(RendererSetup::default().state_descriptor, None);
    assert!(matches!(
        WindowResize { width: 1, height: 2 }.into_box(),
        EventBox::WindowResize(WindowResize { width: 1, height: 2 })
    ));
    assert!(matches!(
        RendererSetup::default().into_box(),
        EventBox::RendererSetup(RendererSetup { state_descriptor: None })
    ));
}

#[test]
fn renderer_setup_goes_to_the_renderer() {
    let mut app = Application::default();
    app.add_module(Renderer::default());
    let state = StateDescriptor::new(PhysicalSize::new(640, 480));
    let extent = app.send_event(
        ApplicationEventID::RendererSetup,
        RendererSetup { state_descriptor: Some(state) }.into_box(),
    );
    assert_eq!(extent, None);
    assert_eq!(renderer_state(&mut app), Some(state));
}

#[test]
fn window_resize_goes_to_the_renderer() {
    let mut app = Application::default();
    app.add_module(Renderer::default());
    let extent = app.send_event(
        ApplicationEventID::WindowResize,
        WindowResize { width: 800, height: 600 }.into_box(),
    );
    // No drawing state yet: nothing to resize.
    assert_eq!(extent, None);
    assert_eq!(renderer_state(&mut app), None);
    app.create_state(PhysicalSize::new(640, 480));
    let extent = app.send_event(
        ApplicationEventID::WindowResize,
        WindowResize { width: 800, height: 600 }.into_box(),
    );
    assert_eq!(extent, Some(PhysicalSize::new(800, 600)));
    assert_eq!(renderer_state(&mut app), Some(StateDescriptor::new(PhysicalSize::new(800, 600))));
    let extent = app.send_event(
        ApplicationEventID::WindowResize,
        WindowResize { width: 0, height: 0 }.into_box(),
    );
    assert_eq!(extent, Some(PhysicalSize::new(800, 600)));
}

#[test]
fn render_event_goes_to_nobody() {
    let mut app = Application::default();
    let extent = app.send_event(
        ApplicationEventID::Render,
        WindowResize { width: 800, height: 600 }.into_box(),
    );
    assert_eq!(extent, None);
    assert!(!app.has_module::<Renderer>());
    app.add_module(Renderer::default());
    app.create_state(PhysicalSize::new(640, 480));
    let extent = app.send_event(
        ApplicationEventID::Render,
        WindowResize { width: 800, height: 600 }.into_box(),
    );
    assert_eq!(extent, None);
    assert_eq!(renderer_state(&mut app), Some(StateDescriptor::new(PhysicalSize::new(640, 480))));
}
