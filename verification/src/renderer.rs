//! The renderer module: it owns the drawing state and decides what follows
//! from a resize, a key and the outcome of a frame.
use crate::application::{Application, ApplicationView};
use crate::camera::steering;
use crate::module::{Module, ModuleBox, RENDERER_TYPE};
use crate::state_descriptor::StateDescriptor;
use crate::window_event::{PhysicalSize, WindowEvent};
use vstd::prelude::*;

verus! {

/// Why the swap chain could not hand out its next frame.
#[derive(Debug, Clone, Copy, PartialEq, Eq, Hash)]
pub enum SwapChainError {
    /// Waiting for the frame took too long.
    Timeout,
    /// The surface has changed since the swap chain was made.
    Outdated,
    /// The swap chain is lost and has to be made again.
    Lost,
    /// No memory is left for a new frame.
    OutOfMemory,
}

/// What is to be done once a frame was drawn, or could not be.
#[derive(Debug, Clone, Copy, PartialEq, Eq, Hash)]
pub enum FrameAction {
    /// Nothing: the frame is on its way to the screen.
    Continue,
    /// Make the swap chain again, with this extent.
    RecreateSwapChain(PhysicalSize),
    /// Report the error and go on: the next frame may well succeed.
    Report(SwapChainError),
    /// Shut the application down.
    Shutdown,
}

/// The size that a resize to `desired_width` by `desired_height` leads to. A
/// request for zero by zero keeps the current size: it asks only for the swap
/// chain to be made again.
pub open spec fn resize_target(
    current: PhysicalSize,
    desired_width: u32,
    desired_height: u32,
) -> PhysicalSize {
    if desired_height == 0 && desired_width == 0 {
        current
    } else {
        PhysicalSize { width: desired_width, height: desired_height }
    }
}

/// What follows from the outcome of a frame, for a surface of size `current`.
pub open spec fn frame_action(
    current: PhysicalSize,
    frame: Result<(), SwapChainError>,
) -> FrameAction {
    match frame {
        Ok(_) => FrameAction::Continue,
        Err(SwapChainError::Lost) => FrameAction::RecreateSwapChain(current),
        Err(SwapChainError::OutOfMemory) => FrameAction::Shutdown,
        Err(error) => FrameAction::Report(error),
    }
}

#[derive(Debug, Clone, PartialEq, Eq, Hash)]
pub struct Renderer {
    /// The drawing state, once it was set or created.
    pub state_descriptor: Option<StateDescriptor>,
}

impl Default for Renderer {
    fn default() -> (renderer: Self)
        ensures
            renderer.state_descriptor is None,
    {
        Renderer { state_descriptor: None }
    }
}

impl Module for Renderer {
    open spec fn type_id() -> u64 {
        RENDERER_TYPE
    }

    open spec fn boxed(self) -> ModuleBox {
        ModuleBox::Renderer(self)
    }

    open spec fn unboxed(module: ModuleBox) -> Option<Self> {
        match module {
            ModuleBox::Renderer(renderer) => Some(renderer),
            _ => None,
        }
    }

    /// Building the renderer module leaves the application as it is.
    open spec fn built(&self, app: ApplicationView) -> ApplicationView {
        app
    }

    proof fn lemma_boxed(module: Self) {
    }

    proof fn lemma_unboxed(module: ModuleBox) {
    }

    fn key() -> (key: u64) {
        RENDERER_TYPE
    }

    fn into_box(self) -> (module: ModuleBox) {
        ModuleBox::Renderer(self)
    }

    fn downcast_ref(module: &ModuleBox) -> (renderer: Option<&Self>) {
        match module {
            ModuleBox::Renderer(renderer) => Some(renderer),
            _ => None,
        }
    }

    fn downcast_mut(module: &mut ModuleBox) -> (renderer: Option<&mut Self>) {
        match module {
            ModuleBox::Renderer(renderer) => Some(renderer),
            _ => None,
        }
    }

    // Needs a window to build properly
    fn build(&self, _app: &mut Application) {
    }
}

impl Renderer {
    /// The renderer after a resize to `desired_width` by `desired_height`.
    pub open spec fn resized(self, desired_width: u32, desired_height: u32) -> Renderer {
        match self.state_descriptor {
            Some(state) => Renderer {
                state_descriptor: Some(
                    state.resized(resize_target(state.size, desired_width, desired_height)),
                ),
            },
            None => self,
        }
    }

    /// The extent with which the swap chain is to be made again after a
    /// resize to `desired_width` by `desired_height`, if there is one.
    pub open spec fn resize_extent(self, desired_width: u32, desired_height: u32) -> Option<
        PhysicalSize,
    > {
        match self.state_descriptor {
            Some(state) => Some(resize_target(state.size, desired_width, desired_height)),
            None => None,
        }
    }

    /// The renderer after a window event was handed to its steering keys.
    pub open spec fn steered(self, event: WindowEvent) -> Renderer {
        match self.state_descriptor {
            Some(state) => Renderer {
                state_descriptor: Some(
                    StateDescriptor {
                        camera_controller: state.camera_controller.processed(event),
                        ..state
                    },
                ),
            },
            None => self,
        }
    }

    /// The renderer after the outcome of a frame.
    pub open spec fn updated(self, frame: Result<(), SwapChainError>) -> Renderer {
        if frame == Err::<(), SwapChainError>(SwapChainError::Lost) {
            self.resized(0, 0)
        } else {
            self
        }
    }

    pub fn set_state(&mut self, state_descriptor: StateDescriptor)
        ensures
            final(self).state_descriptor == Some(state_descriptor),
    {
        self.state_descriptor = Some(state_descriptor);
    }

    /// Sets the drawing state for a surface of the given size.
    pub fn create_state(&mut self, size: PhysicalSize)
        ensures
            final(self).state_descriptor == Some(StateDescriptor::new_spec(size)),
    {
        self.state_descriptor = Some(StateDescriptor::new(size));
    }

    /// Resizes the surface and the swap chain, if there is a drawing state.
    /// Returns the extent with which the swap chain is to be made again, or
    /// `None` where there is no drawing state.
    pub fn resize(&mut self, desired_width: u32, desired_height: u32) -> (extent: Option<
        PhysicalSize,
    >)
        ensures
            *final(self) == old(self).resized(desired_width, desired_height),
            extent == old(self).resize_extent(desired_width, desired_height),
    {
        match self.state_descriptor.as_mut() {
            Some(sd) => {
                let width: u32;
                let height: u32;
                if desired_height == 0 && desired_width == 0 {
                    width = sd.size.width;
                    height = sd.size.height;
                } else {
                    width = desired_width;
                    height = desired_height;
                }
                let size = PhysicalSize::new(width, height);
                sd.resize(size);
                Some(size)
            },
            None => None,
        }
    }

    /// Hands a window event to the camera's steering keys. Returns whether
    /// the event was one for a steering key.
    pub fn input(&mut self, event: &WindowEvent) -> (handled: bool)
        requires
            old(self).state_descriptor is Some,
        ensures
            handled == (steering(*event) is Some),
            *final(self) == old(self).steered(*event),
    {
        match self.state_descriptor.as_mut() {
            Some(sd) => sd.camera_controller.process(event),
            None => false,
        }
    }

    /// Decides what follows from the outcome of drawing a frame. A lost swap
    /// chain is made again at the current size, and running out of memory
    /// shuts the application down. Any other error is left to the next frame.
    pub fn update(&mut self, frame: Result<(), SwapChainError>) -> (action: FrameAction)
        requires
            old(self).state_descriptor is Some,
        ensures
            action == frame_action(old(self).state_descriptor.unwrap().size, frame),
            *final(self) == old(self).updated(frame),
    {
        match frame {
            Ok(_) => FrameAction::Continue,
            // Recreate the swap chain if lost
            Err(SwapChainError::Lost) => {
                match self.resize(0, 0) {
                    Some(extent) => FrameAction::RecreateSwapChain(extent),
                    None => FrameAction::Continue,
                }
            },
            // The system is out of memory, just quit.
            Err(SwapChainError::OutOfMemory) => FrameAction::Shutdown,
            // All other errors (Outdated, Timeout) should be resolved by the next frame.
            Err(e) => FrameAction::Report(e),
        }
    }
}

/// A renderer whose swap chain covers its surface is not changed by the
/// outcome of a frame, whatever it is.
pub proof fn lemma_update_keeps_renderer(renderer: Renderer, frame: Result<(), SwapChainError>)
    requires
        renderer.state_descriptor matches Some(state) && state.wf(),
    ensures
        renderer.updated(frame) == renderer,
{
}

/// After a resize the swap chain covers the surface, whatever was asked for.
pub proof fn lemma_resized_wf(renderer: Renderer, desired_width: u32, desired_height: u32)
    ensures
        renderer.resized(desired_width, desired_height).state_descriptor matches Some(state)
            ==> state.wf(),
{
}

} // verus!
