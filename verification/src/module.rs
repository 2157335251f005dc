//! Modules: the parts that an application is put together from.
//!
//! The application files each module under the key of its type, so it holds at
//! most one module of a type, and hands it out again as that type.
use crate::application::{Application, ApplicationView};
use crate::renderer::Renderer;
use crate::window::Window;
use vstd::prelude::*;

verus! {

/// The key of the window module's type.
pub const WINDOW_TYPE: u64 = 0;

/// The key of the renderer module's type.
pub const RENDERER_TYPE: u64 = 1;

/// A module of any type, as the application keeps it.
#[derive(Debug, Clone, PartialEq, Eq, Hash)]
pub enum ModuleBox {
    Window(Window),
    Renderer(Renderer),
}

impl ModuleBox {
    /// The key of the type of the module in the box.
    pub open spec fn type_id(self) -> u64 {
        match self {
            ModuleBox::Window(_) => WINDOW_TYPE,
            ModuleBox::Renderer(_) => RENDERER_TYPE,
        }
    }
}

pub trait Module: Sized {
    /// The key of this type of module.
    spec fn type_id() -> u64;

    /// The module, put in a box.
    spec fn boxed(self) -> ModuleBox;

    /// The module in the box, if it is one of this type.
    spec fn unboxed(module: ModuleBox) -> Option<Self>;

    /// The application after this module was built into it.
    spec fn built(&self, app: ApplicationView) -> ApplicationView;

    /// A module comes out of its box as it went in, and its box has the key
    /// of its type.
    proof fn lemma_boxed(module: Self)
        ensures
            Self::unboxed(module.boxed()) == Some(module),
            module.boxed().type_id() == Self::type_id(),
    ;

    /// A box holds a module of this type exactly if it has the key of the
    /// type, and then it is the box of that module.
    proof fn lemma_unboxed(module: ModuleBox)
        ensures
            Self::unboxed(module) is Some <==> module.type_id() == Self::type_id(),
            Self::unboxed(module) matches Some(inner) ==> inner.boxed() == module,
    ;

    fn key() -> (key: u64)
        ensures
            key == Self::type_id(),
    ;

    fn into_box(self) -> (module: ModuleBox)
        ensures
            module == self.boxed(),
    ;

    fn downcast_ref(module: &ModuleBox) -> (inner: Option<&Self>)
        ensures
            inner == match Self::unboxed(*module) {
                Some(inner) => Some(&inner),
                None => None,
            },
    ;

    fn downcast_mut(module: &mut ModuleBox) -> (inner: Option<&mut Self>)
        ensures
            match Self::unboxed(*old(module)) {
                Some(before) => inner matches Some(inner) && *inner == before && *final(module)
                    == (*final(inner)).boxed(),
                None => inner is None && *final(module) == *old(module),
            },
    ;

    /// Lets the module set the application up for itself, before it is added.
    fn build(&self, app: &mut Application)
        ensures
            final(app)@ == self.built(old(app)@),
            old(app)@.wf() ==> final(app)@.wf(),
    ;
}

} // verus!
