//! What the renderer keeps of its drawing state outside the GPU: the size of
//! the surface, the extent of the swap chain, the indices of the one quad it
//! draws, and the camera's steering keys.
use crate::camera::CameraController;
use crate::window_event::PhysicalSize;
use vstd::prelude::*;
use vstd::slice::slice_to_vec;

verus! {

/// The number of vertices of the quad: its four corners, starting top left
/// and going clockwise.
pub const VERTEX_COUNT: u16 = 4;

/// The corners of the two triangles that make up the quad, as positions in
/// its list of vertices.
pub const INDICES: [u16; 6] = [0, 1, 2, 2, 3, 0];

/// Every index names a vertex of the quad, and the indices come in threes, one
/// for each triangle.
pub proof fn lemma_indices_name_vertices()
    ensures
        forall|i: int| 0 <= i < INDICES@.len() ==> INDICES@[i] < VERTEX_COUNT,
        INDICES@.len() % 3 == 0,
{
}

/// The bytes of `values`, each value as two bytes with the low byte first.
pub open spec fn little_endian_bytes(values: Seq<u16>) -> Seq<u8> {
    Seq::new(
        2 * values.len(),
        |i: int|
            if i % 2 == 0 {
                (values[i / 2] % 256) as u8
            } else {
                (values[i / 2] / 256) as u8
            },
    )
}

/// The bytes of `values`, each value as two bytes with the high byte first.
pub open spec fn big_endian_bytes(values: Seq<u16>) -> Seq<u8> {
    Seq::new(
        2 * values.len(),
        |i: int|
            if i % 2 == 0 {
                (values[i / 2] / 256) as u8
            } else {
                (values[i / 2] % 256) as u8
            },
    )
}

/// Whether `bytes` are `values` as they lie in memory, in one of the two byte
/// orders that a machine can have.
pub open spec fn is_memory_of(bytes: Seq<u8>, values: Seq<u16>) -> bool {
    bytes == little_endian_bytes(values) || bytes == big_endian_bytes(values)
}

/// In memory, each value lies in two bytes, the low byte and the high byte of
/// the value, in one order or the other.
pub proof fn lemma_memory_holds_values(bytes: Seq<u8>, values: Seq<u16>, i: int)
    requires
        is_memory_of(bytes, values),
        0 <= i < values.len(),
    ensures
        bytes.len() == 2 * values.len(),
        bytes[2 * i] + 256 * bytes[2 * i + 1] == values[i] || 256 * bytes[2 * i] + bytes[2 * i
            + 1] == values[i],
{
}

/// `bytemuck::cast_slice` from `u16` to `u8`: the same memory read as bytes.
/// The cast cannot fail in this direction, since a byte needs no alignment and
/// any number of bytes is a whole number of them. The result has two bytes for
/// each value, in the byte order of the machine, which is not known here.
#[verifier::external_body]
fn cast_slice(values: &[u16]) -> (bytes: &[u8])
    ensures
        is_memory_of(bytes@, values@),
{
    bytemuck::cast_slice(values)
}

/// The contents of an index buffer that holds `indices`: two bytes for each.
pub fn index_bytes(indices: &[u16]) -> (bytes: Vec<u8>)
    ensures
        is_memory_of(bytes@, indices@),
        bytes@.len() == 2 * indices@.len(),
{
    slice_to_vec(cast_slice(indices))
}

/// The part of a swap chain's description that changes with the surface: its
/// extent in pixels.
#[derive(Debug, Clone, Copy, PartialEq, Eq, Hash)]
pub struct SwapChainDescriptor {
    pub width: u32,
    pub height: u32,
}

/// The drawing state of the renderer.
#[derive(Debug, Clone, Copy, PartialEq, Eq, Hash)]
pub struct StateDescriptor {
    pub swap_chain_descriptor: SwapChainDescriptor,
    pub size: PhysicalSize,
    pub num_indicies: u32,
    pub camera_controller: CameraController,
}

impl StateDescriptor {
    /// The swap chain covers the surface.
    pub open spec fn wf(self) -> bool {
        self.swap_chain_descriptor == (SwapChainDescriptor {
            width: self.size.width,
            height: self.size.height,
        })
    }

    /// The state with the surface and the swap chain at `new_size`, and the
    /// rest as it is.
    pub open spec fn resized(self, new_size: PhysicalSize) -> Self {
        StateDescriptor {
            swap_chain_descriptor: SwapChainDescriptor {
                width: new_size.width,
                height: new_size.height,
            },
            size: new_size,
            ..self
        }
    }

    /// The state for a surface of the given size: the swap chain covers it,
    /// all indices of the quad are drawn, and no steering key is held down.
    pub open spec fn new_spec(size: PhysicalSize) -> Self {
        StateDescriptor {
            swap_chain_descriptor: SwapChainDescriptor { width: size.width, height: size.height },
            size,
            num_indicies: INDICES@.len() as u32,
            camera_controller: CameraController::new_spec(),
        }
    }

    /// The state for a surface of the given size.
    #[verifier::when_used_as_spec(new_spec)]
    pub fn new(size: PhysicalSize) -> (state: Self)
        ensures
            state == Self::new_spec(size),
            state.wf(),
            state.num_indicies == 6,
    {
        let swap_chain_descriptor = SwapChainDescriptor { width: size.width, height: size.height };
        let camera_controller = CameraController::new();
        let num_indicies: u32 = INDICES.len() as u32;
        Self { swap_chain_descriptor, size, num_indicies, camera_controller }
    }

    /// Takes the surface and the swap chain to `new_size`.
    pub fn resize(&mut self, new_size: PhysicalSize)
        ensures
            *final(self) == old(self).resized(new_size),
            final(self).wf(),
    {
        self.size = new_size;
        self.swap_chain_descriptor.width = new_size.width;
        self.swap_chain_descriptor.height = new_size.height;
    }
}

/// Resizing changes the size of the surface and the extent of the swap chain,
/// and nothing else.
pub proof fn lemma_resized(state: StateDescriptor, new_size: PhysicalSize)
    ensures
        state.resized(new_size).size == new_size,
        state.resized(new_size).wf(),
        state.resized(new_size).num_indicies == state.num_indicies,
        state.resized(new_size).camera_controller == state.camera_controller,
        state.wf() ==> state.resized(state.size) == state,
{
}

} // verus!
