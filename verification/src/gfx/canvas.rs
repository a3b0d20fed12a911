//! Offscreen render targets.

use vstd::prelude::*;
use super::texture::Texture;

verus! {

/// A framebuffer with the texture it renders into, `width` by `height` pixels.
#[derive(Clone, Copy, Debug, PartialEq, Eq, Structural)]
pub struct Canvas {
    pub framebuffer: u32,
    pub texture: Texture,
    pub width: i32,
    pub height: i32,
}

impl Canvas {
    /// The canvas behind `framebuffer`, which renders into `texture` and is as
    /// large as that texture.
    pub fn new(framebuffer: u32, texture: Texture) -> (c: Canvas)
        ensures
            c == (Canvas { framebuffer, texture, width: texture.width, height: texture.height }),
    {
        Canvas { framebuffer, texture, width: texture.width, height: texture.height }
    }

    /// The canvas's width in pixels.
    pub fn width(&self) -> (w: i32)
        ensures
            w == self.width,
    {
        self.width
    }

    /// The canvas's height in pixels.
    pub fn height(&self) -> (h: i32)
        ensures
            h == self.height,
    {
        self.height
    }
}

} // verus!
