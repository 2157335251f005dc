//! Events that are sent to an application.
use crate::application_events::{ApplicationEventID, RendererSetup, WindowResize};
use vstd::prelude::*;

verus! {

/// An application event of any type, as it is sent.
#[derive(Debug, Clone, Copy, PartialEq, Eq, Hash)]
pub enum EventBox {
    WindowResize(WindowResize),
    RendererSetup(RendererSetup),
}

impl EventBox {
    /// The identifier of the type of the event in the box.
    pub open spec fn id(self) -> ApplicationEventID {
        match self {
            EventBox::WindowResize(_) => ApplicationEventID::WindowResize,
            EventBox::RendererSetup(_) => ApplicationEventID::RendererSetup,
        }
    }
}

pub trait ApplicationEvent: Sized {
    /// The event, put in a box.
    spec fn boxed(self) -> EventBox;

    fn into_box(self) -> (event: EventBox)
        ensures
            event == self.boxed(),
    ;

    /// The identifier under which this event is sent.
    fn get_id(&self) -> (id: Option<ApplicationEventID>)
        ensures
            id == Some(self.boxed().id()),
    ;
}

} // verus!
