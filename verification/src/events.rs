//! The events that observers are notified of.
use crate::state_descriptor::StateDescriptor;
use vstd::prelude::*;

verus! {

#[derive(Debug, Clone, Copy, PartialEq, Eq, Hash)]
pub enum PaopuEvent {
    // -----------------------------------------------
    //          - Window Events -
    // -----------------------------------------------
    WindowResize { id: i8, width: u32, height: u32 },
    // -----------------------------------------------
    //          - Renderer Events -
    // -----------------------------------------------
    RendererSetup { id: i8, state: Option<StateDescriptor> },
}

} // verus!
