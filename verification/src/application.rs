//! The application: a registry of modules, the loop that runs it, and the
//! routing of events to the module they are for.
use crate::application_event::EventBox;
use crate::application_events::{ApplicationEventID, RendererSetup};
use crate::input::{key_event, pressed_by, released_by, Input, PKeyCode};
use crate::module::{Module, ModuleBox};
use crate::renderer::{frame_action, FrameAction, Renderer, SwapChainError};
use crate::state_descriptor::StateDescriptor;
use crate::window_event::{ElementState, PhysicalSize, WindowEvent};
use std::collections::hash_map::Entry;
use std::collections::HashMap;
use vstd::prelude::*;

verus! {

/// The loops that can run an application.
#[derive(Debug, Clone, Copy, PartialEq, Eq, Hash)]
pub enum LoopFunction {
    /// Updates the application once and returns.
    NoLoop,
    /// Opens a window and runs its event loop.
    WindowLoop,
}

pub struct Application {
    modules: HashMap<u64, ModuleBox>,
    loop_function: LoopFunction,
    requested_termination: bool,
}

/// What an application holds.
pub struct ApplicationView {
    /// The modules, each under the key of its type.
    pub modules: Map<u64, ModuleBox>,
    pub loop_function: LoopFunction,
    pub requested_termination: bool,
}

impl ApplicationView {
    /// The module of type `T`, if there is one.
    pub open spec fn module<T: Module>(self) -> Option<T> {
        if self.modules.dom().contains(T::type_id()) {
            T::unboxed(self.modules[T::type_id()])
        } else {
            None
        }
    }

    /// The application with `module` in the place of the module of its type.
    pub open spec fn with_module<T: Module>(self, module: T) -> ApplicationView {
        ApplicationView { modules: self.modules.insert(T::type_id(), module.boxed()), ..self }
    }

    /// Every module is filed under the key of its own type.
    pub open spec fn wf(self) -> bool {
        forall|key: u64| #[trigger]
            self.modules.dom().contains(key) ==> self.modules[key].type_id() == key
    }

    /// The application after a window event was looked at for keyboard input:
    /// termination is requested exactly if the event pressed `Escape`.
    pub open spec fn input_updated(self, event: WindowEvent) -> ApplicationView {
        ApplicationView {
            requested_termination: key_event(event) == Some(
                (PKeyCode::Escape, ElementState::Pressed),
            ),
            ..self
        }
    }

    /// The application after `event` was sent to it under `event_id`.
    pub open spec fn event_sent(
        self,
        event_id: ApplicationEventID,
        event: EventBox,
    ) -> ApplicationView {
        match (event_id, event, self.module::<Renderer>()) {
            (ApplicationEventID::WindowResize, EventBox::WindowResize(resize), Some(renderer)) => {
                self.with_module(renderer.resized(resize.width, resize.height))
            },
            (
                ApplicationEventID::RendererSetup,
                EventBox::RendererSetup(setup),
                Some(renderer),
            ) => self.with_module(Renderer { state_descriptor: setup.state_descriptor }),
            _ => self,
        }
    }

    /// Whether `event` can be sent under `event_id`: the event is of the type
    /// that the identifier names, a renderer is there to take it, and a
    /// renderer setup brings a drawing state. A render event asks for nothing.
    pub open spec fn accepts(self, event_id: ApplicationEventID, event: EventBox) -> bool {
        match event_id {
            ApplicationEventID::WindowResize => event is WindowResize
                && self.module::<Renderer>() is Some,
            ApplicationEventID::RendererSetup => event matches EventBox::RendererSetup(setup)
                && setup.state_descriptor is Some && self.module::<Renderer>() is Some,
            ApplicationEventID::Render => true,
        }
    }
}

impl View for Application {
    type V = ApplicationView;

    closed spec fn view(&self) -> ApplicationView {
        ApplicationView {
            modules: self.modules@,
            loop_function: self.loop_function,
            requested_termination: self.requested_termination,
        }
    }
}

impl Default for Application {
    fn default() -> (app: Self)
        ensures
            app@.modules == Map::<u64, ModuleBox>::empty(),
            app@.loop_function == LoopFunction::NoLoop,
            !app@.requested_termination,
            app@.wf(),
    {
        Self {
            modules: HashMap::new(),
            loop_function: LoopFunction::NoLoop,
            requested_termination: false,
        }
    }
}

impl Application {
    /// Called to start the main loop: hands out the loop that was set, to be
    /// run on the application, which is left without a loop of its own.
    pub fn run(self) -> (started: (LoopFunction, Application))
        ensures
            started.0 == self@.loop_function,
            started.1@ == (ApplicationView { loop_function: LoopFunction::NoLoop, ..self@ }),
            self@.wf() ==> started.1@.wf(),
    {
        let mut app = self;
        let replaced_loop = app.loop_function;
        app.loop_function = LoopFunction::NoLoop;
        (replaced_loop, app)
    }

    /// Whether a module has asked for the application to end.
    pub fn requested_termination(&self) -> (requested: bool)
        ensures
            requested == self@.requested_termination,
    {
        self.requested_termination
    }

    /// Asks for the application to end, or takes the request back.
    pub fn set_requested_termination(&mut self, requested: bool)
        ensures
            final(self)@ == (ApplicationView { requested_termination: requested, ..old(self)@ }),
            old(self)@.wf() ==> final(self)@.wf(),
    {
        self.requested_termination = requested;
    }

    /// Sets the main event loop
    pub fn set_loop_function(&mut self, loop_function: LoopFunction) -> (app: &mut Self)
        ensures
            app@ == (ApplicationView { loop_function, ..old(self)@ }),
            old(self)@.wf() ==> app@.wf(),
            *final(self) == *final(app),
    {
        self.loop_function = loop_function;
        self
    }

    /// Adds a module of type `T` to the application, after the module has
    /// built itself into it. A module of the same type that was added before
    /// is replaced.
    pub fn add_module<T>(&mut self, module: T) -> (app: &mut Self) where T: Module
        ensures
            app@ == module.built(old(self)@).with_module(module),
            old(self)@.wf() ==> app@.wf(),
            *final(self) == *final(app),
    {
        broadcast use vstd::std_specs::hash::group_hash_axioms;

        proof {
            lemma_with_module::<T, T>(module.built(old(self)@), module);
        }
        module.build(self);
        self.modules.insert(T::key(), module.into_box());
        self
    }

    /// Whether the application has a module of type `T`.
    pub fn has_module<T>(&self) -> (has: bool) where T: Module
        ensures
            has == self@.module::<T>() is Some,
    {
        broadcast use vstd::std_specs::hash::group_hash_axioms;

        let key: u64 = T::key();
        match self.modules.get(&key) {
            Some(module) => T::downcast_ref(module).is_some(),
            None => false,
        }
    }

    /// The module of type `T`.
    pub fn get_module<T>(&mut self) -> (module: Option<&T>) where T: Module
        requires
            old(self)@.module::<T>() is Some,
        ensures
            module == Some(&old(self)@.module::<T>().unwrap()),
            *final(self) == *old(self),
    {
        broadcast use vstd::std_specs::hash::group_hash_axioms;

        let key: u64 = T::key();
        match self.modules.get(&key) {
            Some(module) => T::downcast_ref(module),
            None => None,
        }
    }

    /// The module of type `T`, to be changed in its place.
    pub fn get_module_mut<T>(&mut self) -> (module: Option<&mut T>) where T: Module
        requires
            old(self)@.module::<T>() is Some,
        ensures
            module matches Some(inner) && *inner == old(self)@.module::<T>().unwrap()
                && final(self)@ == old(self)@.with_module(*final(inner)),
            old(self)@.wf() ==> final(self)@.wf(),
    {
        broadcast use vstd::std_specs::hash::group_hash_axioms;

        proof {
            assert forall|inner: T| old(self)@.wf() implies #[trigger] old(self)@.with_module(
                inner,
            ).wf() by {
                lemma_with_module::<T, T>(old(self)@, inner);
            }
        }

        match self.modules.entry(T::key()) {
            Entry::Occupied(entry) => T::downcast_mut(entry.into_mut()),
            Entry::Vacant(_) => None,
        }
    }

    // ---------------------------------------------------------
    //                  Events
    // ---------------------------------------------------------
    /// Updates game logic.
    /// Called once every frame.
    pub fn update(&mut self)
        ensures
            *final(self) == *old(self),
    {
    }

    /// Hands the outcome of drawing a frame to the renderer, and returns what
    /// is to be done about it.
    pub fn render(&mut self, frame: Result<(), SwapChainError>) -> (action: FrameAction)
        requires
            old(self)@.module::<Renderer>() matches Some(renderer) && renderer.state_descriptor
                is Some,
        ensures
            action == frame_action(
                old(self)@.module::<Renderer>().unwrap().state_descriptor.unwrap().size,
                frame,
            ),
            final(self)@ == old(self)@.with_module(
                old(self)@.module::<Renderer>().unwrap().updated(frame),
            ),
            old(self)@.wf() ==> final(self)@.wf(),
    {
        match self.get_module_mut::<Renderer>() {
            Some(r) => r.update(frame),
            None => FrameAction::Continue,
        }
    }

    /// Handles the window resize. Returns the extent with which the swap
    /// chain is to be made again, or `None` where the renderer has no drawing
    /// state yet.
    pub fn window_resize(&mut self, width: u32, height: u32) -> (extent: Option<PhysicalSize>)
        requires
            old(self)@.module::<Renderer>() is Some,
        ensures
            extent == old(self)@.module::<Renderer>().unwrap().resize_extent(width, height),
            final(self)@ == old(self)@.with_module(
                old(self)@.module::<Renderer>().unwrap().resized(width, height),
            ),
            old(self)@.wf() ==> final(self)@.wf(),
    {
        match self.get_module_mut::<Renderer>() {
            Some(r) => r.resize(width, height),
            None => None,
        }
    }

    /// Handles the window input events: records the key of `event` in
    /// `input`, and requests termination exactly if `Escape` was pressed.
    /// Returns whether the event was keyboard input for a key that the
    /// library knows.
    pub fn update_input(&mut self, input: &mut Input, event: &WindowEvent) -> (input_event: bool)
        ensures
            input_event == (key_event(*event) is Some),
            final(input).pressed() == pressed_by(*event),
            final(input).released() == released_by(*event),
            final(self)@ == old(self)@.input_updated(*event),
            old(self)@.wf() ==> final(self)@.wf(),
    {
        let input_event = input.update(event);

        self.requested_termination = input.get_key_pressed(PKeyCode::Escape);

        input_event
    }

    /// Gives the renderer its drawing state, for a surface of the given size.
    pub fn create_state(&mut self, size: PhysicalSize)
        requires
            old(self)@.module::<Renderer>() is Some,
        ensures
            final(self)@ == old(self)@.with_module(
                Renderer { state_descriptor: Some(StateDescriptor::new_spec(size)) },
            ),
            old(self)@.wf() ==> final(self)@.wf(),
    {
        match self.get_module_mut::<Renderer>() {
            Some(r) => r.create_state(size),
            None => {},
        }
    }

    /// Routes an event to the module it is for: a window resize and a
    /// renderer setup go to the renderer, a render event to nobody. Returns
    /// the extent with which the swap chain is to be made again, if the event
    /// calls for that.
    pub fn send_event(&mut self, event_id: ApplicationEventID, app_event: EventBox) -> (extent:
        Option<PhysicalSize>)
        requires
            old(self)@.accepts(event_id, app_event),
        ensures
            final(self)@ == old(self)@.event_sent(event_id, app_event),
            old(self)@.wf() ==> final(self)@.wf(),
            extent == match (event_id, app_event) {
                (ApplicationEventID::WindowResize, EventBox::WindowResize(resize)) => old(
                    self,
                )@.module::<Renderer>().unwrap().resize_extent(resize.width, resize.height),
                _ => None,
            },
    {
        match event_id {
            ApplicationEventID::WindowResize => {
                match app_event {
                    EventBox::WindowResize(resize_event) => self.window_resize(
                        resize_event.width,
                        resize_event.height,
                    ),
                    _ => None,
                }
            },
            ApplicationEventID::RendererSetup => {
                match (app_event, self.get_module_mut::<Renderer>()) {
                    (
                        EventBox::RendererSetup(RendererSetup { state_descriptor: Some(state) }),
                        Some(r),
                    ) => r.set_state(state),
                    _ => {},
                }
                None
            },
            ApplicationEventID::Render => None,
        }
    }
}

/// In an application whose modules are filed under their own keys, there is
/// a module of a type exactly if something is filed under the key of the type.
pub proof fn lemma_module_iff_key<T: Module>(app: ApplicationView)
    requires
        app.wf(),
    ensures
        app.module::<T>() is Some <==> app.modules.dom().contains(T::type_id()),
{
    if app.modules.dom().contains(T::type_id()) {
        T::lemma_unboxed(app.modules[T::type_id()]);
    }
}

/// A module that was put in is the module of its type, the modules stay
/// filed under their own keys, and the modules of types with another key
/// are as they were.
pub proof fn lemma_with_module<T: Module, U: Module>(app: ApplicationView, module: T)
    ensures
        app.with_module(module).module::<T>() == Some(module),
        app.wf() ==> app.with_module(module).wf(),
        U::type_id() != T::type_id() ==> app.with_module(module).module::<U>() == app.module::<U>(),
{
    T::lemma_boxed(module);
}

} // verus!
