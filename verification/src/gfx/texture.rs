//! Handles of images that live on the GPU.

use vstd::prelude::*;

verus! {

/// A texture on the GPU: its handle and its size in pixels.
#[derive(Clone, Copy, Debug, PartialEq, Eq, Structural)]
pub struct Texture {
    pub id: u32,
    pub width: i32,
    pub height: i32,
}

impl Texture {
    /// The texture behind `id`, `width` by `height` pixels.
    pub fn new(id: u32, width: i32, height: i32) -> (t: Texture)
        ensures
            t == (Texture { id, width, height }),
    {
        Texture { id, width, height }
    }
}

} // verus!
