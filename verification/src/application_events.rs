//! The events that an application understands.
use crate::application_event::{ApplicationEvent, EventBox};
use crate::state_descriptor::StateDescriptor;
use vstd::prelude::*;

verus! {

#[derive(Debug, Clone, Copy, PartialEq, Eq, Hash)]
pub enum ApplicationEventID {
    WindowResize,
    RendererSetup,
    Render,
}

// -----------------------------------------------
//          - Window Events -
// -----------------------------------------------
/// The window has a new size. Zero by zero stands for the size it has.
#[derive(Debug, Clone, Copy, PartialEq, Eq, Hash)]
pub struct WindowResize {
    pub width: u32,
    pub height: u32,
}

impl ApplicationEvent for WindowResize {
    open spec fn boxed(self) -> EventBox {
        EventBox::WindowResize(self)
    }

    fn into_box(self) -> (event: EventBox) {
        EventBox::WindowResize(self)
    }

    fn get_id(&self) -> (id: Option<ApplicationEventID>) {
        Some(ApplicationEventID::WindowResize)
    }
}

// -----------------------------------------------
//          - Renderer Events -
// -----------------------------------------------
/// The drawing state for the renderer is ready.
#[derive(Debug, Clone, Copy, PartialEq, Eq, Hash)]
pub struct RendererSetup {
    pub state_descriptor: Option<StateDescriptor>,
}

impl ApplicationEvent for RendererSetup {
    open spec fn boxed(self) -> EventBox {
        EventBox::RendererSetup(self)
    }

    fn into_box(self) -> (event: EventBox) {
        EventBox::RendererSetup(self)
    }

    fn get_id(&self) -> (id: Option<ApplicationEventID>) {
        Some(ApplicationEventID::RendererSetup)
    }
}

impl Default for RendererSetup {
    fn default() -> (event: Self)
        ensures
            event.state_descriptor is None,
    {
        RendererSetup { state_descriptor: None }
    }
}

} // verus!
