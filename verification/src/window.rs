//! The window module, and the decisions of its event loop.
//!
//! The loop itself is run by the program, which owns the window and the GPU.
//! It hands every event to [`handle_event`], sets the control flow that comes
//! back and does what the action says. Where the action is to draw a frame, it
//! draws one and hands the outcome to [`frame_drawn`], which answers in the
//! same way.
use crate::application::{Application, ApplicationView, LoopFunction};
use crate::input::{key_event, pressed_by, released_by, Input, PKeyCode};
use crate::module::{Module, ModuleBox, WINDOW_TYPE};
use crate::renderer::{FrameAction, Renderer, SwapChainError};
use crate::virtual_keycode;
use crate::window_event::{ElementState, Event, KeyboardInput, PhysicalSize, WindowEvent};
use vstd::prelude::*;

verus! {

#[derive(Debug, Clone, PartialEq, Eq, Hash)]
pub struct Window {
    title: String,
}

impl Default for Window {
    fn default() -> (window: Self)
        ensures
            window.title() == "Paopu-rs Application"@,
    {
        Window { title: "Paopu-rs Application".to_owned() }
    }
}

impl Window {
    /// The title of the window.
    pub closed spec fn title(&self) -> Seq<char> {
        self.title@
    }

    pub fn get_title(&self) -> (title: &str)
        ensures
            title@ == self.title(),
    {
        self.title.as_str()
    }
}

impl Module for Window {
    open spec fn type_id() -> u64 {
        WINDOW_TYPE
    }

    open spec fn boxed(self) -> ModuleBox {
        ModuleBox::Window(self)
    }

    open spec fn unboxed(module: ModuleBox) -> Option<Self> {
        match module {
            ModuleBox::Window(window) => Some(window),
            _ => None,
        }
    }

    /// Building the window module makes the window's event loop the loop of
    /// the application.
    open spec fn built(&self, app: ApplicationView) -> ApplicationView {
        ApplicationView { loop_function: LoopFunction::WindowLoop, ..app }
    }

    proof fn lemma_boxed(module: Self) {
    }

    proof fn lemma_unboxed(module: ModuleBox) {
    }

    fn key() -> (key: u64) {
        WINDOW_TYPE
    }

    fn into_box(self) -> (module: ModuleBox) {
        ModuleBox::Window(self)
    }

    fn downcast_ref(module: &ModuleBox) -> (window: Option<&Self>) {
        match module {
            ModuleBox::Window(window) => Some(window),
            _ => None,
        }
    }

    fn downcast_mut(module: &mut ModuleBox) -> (window: Option<&mut Self>) {
        match module {
            ModuleBox::Window(window) => Some(window),
            _ => None,
        }
    }

    fn build(&self, app: &mut Application) {
        app.set_loop_function(LoopFunction::WindowLoop);
    }
}

/// Whether the event loop goes on or ends.
#[derive(Debug, Clone, Copy, PartialEq, Eq, Hash)]
pub enum ControlFlow {
    /// Go on with the next event, without waiting for one.
    Poll,
    /// End the loop.
    Exit,
}

/// What the program that runs the loop is to do after an event.
#[derive(Debug, Clone, Copy, PartialEq, Eq, Hash)]
pub enum LoopAction {
    Nothing,
    /// Make the swap chain again, with this extent.
    RecreateSwapChain(PhysicalSize),
    /// Ask the window to be drawn again.
    RequestRedraw,
    /// Draw a frame, and hand its outcome to [`frame_drawn`].
    DrawFrame,
    /// Report the error that kept the frame from being drawn.
    Report(SwapChainError),
}

/// The decision on one event.
#[derive(Debug, Clone, Copy, PartialEq, Eq, Hash)]
pub struct LoopStep {
    pub control_flow: ControlFlow,
    pub action: LoopAction,
}

/// The event of the window that the loop runs for, if `event` is one.
pub open spec fn own_event(actual_wid: u64, event: Event) -> Option<WindowEvent> {
    match event {
        Event::WindowEvent { window_id, event } => if window_id == actual_wid {
            Some(event)
        } else {
            None
        },
        _ => None,
    }
}

/// The window event that reaches the keyboard input: one of the loop's own
/// window, while no termination is requested.
pub open spec fn input_event(app: ApplicationView, actual_wid: u64, event: Event) -> Option<
    WindowEvent,
> {
    if app.requested_termination {
        None
    } else {
        own_event(actual_wid, event)
    }
}

/// The application can draw: it has a renderer with a drawing state.
pub open spec fn ready(app: ApplicationView) -> bool {
    app.module::<Renderer>() matches Some(renderer) && renderer.state_descriptor is Some
}

/// The new size of the window, if the event is one that resizes the
/// renderer: a change of size or of scale factor that reaches the keyboard
/// input.
pub open spec fn resize_event(app: ApplicationView, actual_wid: u64, event: Event) -> Option<
    PhysicalSize,
> {
    match input_event(app, actual_wid, event) {
        Some(WindowEvent::Resized(size)) => Some(size),
        Some(WindowEvent::ScaleFactorChanged { new_inner_size }) => Some(new_inner_size),
        _ => None,
    }
}

/// The application and the decision after a resize of the window.
pub open spec fn resize_step(app: ApplicationView, size: PhysicalSize) -> (
    ApplicationView,
    LoopStep,
) {
    let renderer = app.module::<Renderer>().unwrap();
    (
        app.with_module(renderer.resized(size.width, size.height)),
        LoopStep {
            control_flow: ControlFlow::Poll,
            action: match renderer.resize_extent(size.width, size.height) {
                Some(extent) => LoopAction::RecreateSwapChain(extent),
                None => LoopAction::Nothing,
            },
        },
    )
}

/// The application and the decision after an event of the loop.
///
/// An event of the loop's own window ends the loop if termination was
/// requested. Else it goes to the keyboard input first; if it is not for a
/// key that the library knows, a request to close ends the loop and a change
/// of size resizes the renderer. When all events are handed out, the window
/// is asked to be drawn again, and when it asks for that, a frame is drawn.
pub open spec fn stepped(app: ApplicationView, actual_wid: u64, event: Event) -> (
    ApplicationView,
    LoopStep,
) {
    let go_on = LoopStep { control_flow: ControlFlow::Poll, action: LoopAction::Nothing };
    let exit = LoopStep { control_flow: ControlFlow::Exit, action: LoopAction::Nothing };
    match own_event(actual_wid, event) {
        Some(window_event) => {
            if app.requested_termination {
                (app, exit)
            } else if key_event(window_event) is Some {
                (app.input_updated(window_event), go_on)
            } else {
                match window_event {
                    WindowEvent::CloseRequested => (app.input_updated(window_event), exit),
                    WindowEvent::Resized(size) => resize_step(
                        app.input_updated(window_event),
                        size,
                    ),
                    WindowEvent::ScaleFactorChanged { new_inner_size } => resize_step(
                        app.input_updated(window_event),
                        new_inner_size,
                    ),
                    _ => (app.input_updated(window_event), go_on),
                }
            }
        },
        None => match event {
            Event::MainEventsCleared => (
                app,
                LoopStep { control_flow: ControlFlow::Poll, action: LoopAction::RequestRedraw },
            ),
            Event::RedrawRequested => (
                app,
                LoopStep { control_flow: ControlFlow::Poll, action: LoopAction::DrawFrame },
            ),
            _ => (app, go_on),
        },
    }
}

/// The decision after a frame was drawn, or could not be.
pub open spec fn frame_step(action: FrameAction) -> LoopStep {
    match action {
        FrameAction::Continue => LoopStep {
            control_flow: ControlFlow::Poll,
            action: LoopAction::Nothing,
        },
        FrameAction::RecreateSwapChain(extent) => LoopStep {
            control_flow: ControlFlow::Poll,
            action: LoopAction::RecreateSwapChain(extent),
        },
        FrameAction::Report(error) => LoopStep {
            control_flow: ControlFlow::Poll,
            action: LoopAction::Report(error),
        },
        FrameAction::Shutdown => LoopStep {
            control_flow: ControlFlow::Exit,
            action: LoopAction::Nothing,
        },
    }
}

/// Decides on one event of the event loop that runs for the window numbered
/// `actual_wid`. An event that resizes the renderer needs a renderer to be
/// there.
pub fn handle_event(
    app: &mut Application,
    input: &mut Input,
    actual_wid: u64,
    event: &Event,
) -> (step: LoopStep)
    requires
        resize_event(old(app)@, actual_wid, *event) is Some ==> old(app)@.module::<Renderer>()
            is Some,
    ensures
        (final(app)@, step) == stepped(old(app)@, actual_wid, *event),
        ready(old(app)@) ==> ready(final(app)@),
        old(app)@.wf() ==> final(app)@.wf(),
        input_event(old(app)@, actual_wid, *event) is None ==> *final(input) == *old(input),
        input_event(old(app)@, actual_wid, *event) matches Some(window_event) ==> {
            &&& final(input).pressed() == pressed_by(window_event)
            &&& final(input).released() == released_by(window_event)
        },
{
    let mut control_flow = ControlFlow::Poll;
    let mut action = LoopAction::Nothing;

    match event {
        Event::WindowEvent { window_id, event } => {
            if *window_id == actual_wid {
                // Only triggered if termination is requested in another module.
                if app.requested_termination() {
                    control_flow = ControlFlow::Exit;
                    // Else check for non-window inputs
                } else if !app.update_input(input, event) {
                    match event {
                        WindowEvent::CloseRequested => control_flow = ControlFlow::Exit,
                        WindowEvent::Resized(physical_size) => {
                            // resize event
                            action = resize_action(
                                app.window_resize(physical_size.width, physical_size.height),
                            );
                        },
                        WindowEvent::ScaleFactorChanged { new_inner_size } => {
                            // resize event
                            action = resize_action(
                                app.window_resize(new_inner_size.width, new_inner_size.height),
                            );
                        },
                        _ => (),
                    }
                }
            }
        },
        Event::MainEventsCleared => {
            // Application update code
            app.update();
            // Queue redraw requested event
            action = LoopAction::RequestRedraw;
        },
        Event::RedrawRequested => {
            // Redraw the application
            action = LoopAction::DrawFrame;
        },
        _ => (),
    }
    LoopStep { control_flow, action }
}

fn resize_action(extent: Option<PhysicalSize>) -> (action: LoopAction)
    ensures
        action == match extent {
            Some(extent) => LoopAction::RecreateSwapChain(extent),
            None => LoopAction::Nothing,
        },
{
    match extent {
        Some(extent) => LoopAction::RecreateSwapChain(extent),
        None => LoopAction::Nothing,
    }
}

/// Decides on the outcome of drawing a frame: a fatal error ends the loop.
pub fn frame_drawn(app: &mut Application, frame: Result<(), SwapChainError>) -> (step: LoopStep)
    requires
        ready(old(app)@),
    ensures
        step == frame_step(
            crate::renderer::frame_action(
                old(app)@.module::<Renderer>().unwrap().state_descriptor.unwrap().size,
                frame,
            ),
        ),
        final(app)@ == old(app)@.with_module(
            old(app)@.module::<Renderer>().unwrap().updated(frame),
        ),
        ready(final(app)@),
        old(app)@.wf() ==> final(app)@.wf(),
{
    let action = app.render(frame);
    proof {
        crate::application::lemma_with_module::<Renderer, Renderer>(
            old(app)@,
            old(app)@.module::<Renderer>().unwrap().updated(frame),
        );
    }
    match action {
        FrameAction::Continue => LoopStep {
            control_flow: ControlFlow::Poll,
            action: LoopAction::Nothing,
        },
        FrameAction::RecreateSwapChain(extent) => LoopStep {
            control_flow: ControlFlow::Poll,
            action: LoopAction::RecreateSwapChain(extent),
        },
        FrameAction::Report(error) => LoopStep {
            control_flow: ControlFlow::Poll,
            action: LoopAction::Report(error),
        },
        // If there was a fatal error, then request a shutdown.
        FrameAction::Shutdown => LoopStep {
            control_flow: ControlFlow::Exit,
            action: LoopAction::Nothing,
        },
    }
}

/// An event that is not of the loop's own window leaves the application as
/// it is and never ends the loop.
pub proof fn lemma_foreign_events_change_nothing(
    app: ApplicationView,
    actual_wid: u64,
    event: Event,
)
    requires
        own_event(actual_wid, event) is None,
    ensures
        stepped(app, actual_wid, event).0 == app,
        stepped(app, actual_wid, event).1.control_flow is Poll,
{
}

/// An event ends the loop exactly if it is of the loop's own window, and
/// either termination was requested before or the event asks for the window
/// to be closed.
pub proof fn lemma_exit_exactly_when(app: ApplicationView, actual_wid: u64, event: Event)
    ensures
        stepped(app, actual_wid, event).1.control_flow is Exit <==> (own_event(actual_wid, event)
            matches Some(window_event) && (app.requested_termination
            || window_event is CloseRequested)),
{
}

/// Pressing `Escape` in the loop's own window does not end the loop at once,
/// but the next event of that window does, whatever it is.
pub proof fn lemma_escape_ends_the_loop(app: ApplicationView, actual_wid: u64, next: WindowEvent)
    requires
        !app.requested_termination,
    ensures
        ({
            let press = Event::WindowEvent {
                window_id: actual_wid,
                event: WindowEvent::KeyboardInput {
                    input: KeyboardInput {
                        state: ElementState::Pressed,
                        virtual_keycode: Some(virtual_keycode::ESCAPE),
                    },
                },
            };
            let (pressed, step) = stepped(app, actual_wid, press);
            let after = Event::WindowEvent { window_id: actual_wid, event: next };
            &&& step.control_flow is Poll
            &&& pressed.requested_termination
            &&& stepped(pressed, actual_wid, after).1.control_flow is Exit
        }),
{
}

/// A request for termination is taken back by the next event of the loop's
/// own window that reaches the keyboard input, unless that event presses
/// `Escape`.
pub proof fn lemma_termination_follows_last_event(
    app: ApplicationView,
    actual_wid: u64,
    event: Event,
)
    requires
        input_event(app, actual_wid, event) is Some,
    ensures
        stepped(app, actual_wid, event).0.requested_termination <==> key_event(
            input_event(app, actual_wid, event).unwrap(),
        ) == Some((PKeyCode::Escape, ElementState::Pressed)),
{
}

/// An application that can draw can still draw after any event, and its
/// modules stay filed under their own keys.
pub proof fn lemma_stepped_keeps_ready(app: ApplicationView, actual_wid: u64, event: Event)
    requires
        ready(app),
    ensures
        ready(stepped(app, actual_wid, event).0),
        app.wf() ==> stepped(app, actual_wid, event).0.wf(),
{
    let renderer = app.module::<Renderer>().unwrap();
    match own_event(actual_wid, event) {
        Some(window_event) => {
            let updated = app.input_updated(window_event);
            match window_event {
                WindowEvent::Resized(size) => {
                    crate::application::lemma_with_module::<Renderer, Renderer>(
                        updated,
                        renderer.resized(size.width, size.height),
                    );
                },
                WindowEvent::ScaleFactorChanged { new_inner_size } => {
                    crate::application::lemma_with_module::<Renderer, Renderer>(
                        updated,
                        renderer.resized(new_inner_size.width, new_inner_size.height),
                    );
                },
                _ => {},
            }
        },
        None => {},
    }
}

} // verus!
