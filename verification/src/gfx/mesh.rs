//! The vertex that the context batches, and plain geometry made of it.

use vstd::prelude::*;
use super::gltypes::Primitive;
use super::texture::Texture;
use super::Drawable;
use super::Error;
use super::Gfx;
use super::GfxView;

verus! {

/// One vertex: position, normal, texture coordinate and colour, each
/// component a single-precision number held as its 32-bit pattern.
#[derive(Clone, Copy, Debug, PartialEq, Eq)]
pub struct Vertex {
    pub pos: [u32; 3],
    pub normal: [u32; 3],
    pub uv: [u32; 2],
    pub color: [u32; 4],
}

/// Plain geometry: vertices, indices into them, how the indices are to be
/// assembled, and the texture to draw with, if any. The vertices are staged
/// as they are; whoever builds the mesh has applied the transform.
#[derive(Clone, Debug)]
pub struct Mesh {
    pub prim: Primitive,
    pub vertices: Vec<Vertex>,
    pub indices: Vec<u32>,
    pub texture: Option<Texture>,
}

impl Drawable for Mesh {
    /// The mesh is appended to the context where the context's buffers can
    /// take it. Where they cannot, the draw fails and the context is left as
    /// it was: with `MeshTooLarge` where the mesh can never fit, else with
    /// `IndexOutOfRange`.
    open spec fn drawn(&self, before: GfxView, after: GfxView, r: Result<(), Error>) -> bool {
        let g = before.geometry(self.prim, self.vertices@, self.indices@, self.texture);
        if before.renderer.accepts(g) {
            r is Ok && after == before.appended(g)
        } else if self.vertices@.len() > before.renderer.max_vertices || self.indices@.len()
            > before.renderer.max_indices {
            r == Err::<(), Error>(Error::MeshTooLarge) && after == before
        } else {
            r == Err::<(), Error>(Error::IndexOutOfRange) && after == before
        }
    }

    fn draw(&self, ctx: &mut Gfx) -> (r: Result<(), Error>) {
        ctx.append(self.prim, self.vertices.as_slice(), self.indices.as_slice(), self.texture)
    }
}

} // verus!
