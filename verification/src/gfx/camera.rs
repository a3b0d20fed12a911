//! Cameras: where the view and projection matrices of a draw call come from.

use vstd::prelude::*;

verus! {

/// The near plane of the cameras that the context makes itself.
pub const DEFAULT_NEAR: i32 = -4096;

/// The far plane of the cameras that the context makes itself.
pub const DEFAULT_FAR: i32 = 4096;

/// A 4x4 matrix of single-precision numbers, column by column, each held as
/// its 32-bit pattern. The context stores and hands on matrices; it never
/// looks inside one.
#[derive(Clone, Copy, Debug, PartialEq, Eq)]
pub struct Mat4 {
    pub m: [u32; 16],
}

/// A copy of `src`.
pub fn copy_matrices(src: &Vec<Mat4>) -> (r: Vec<Mat4>)
    ensures
        r@ == src@,
{
    let mut r: Vec<Mat4> = Vec::new();
    let mut i: usize = 0;
    while i < src.len()
        invariant
            i <= src.len(),
            r@ == src@.subrange(0, i as int),
        decreases src.len() - i,
    {
        r.push(src[i]);
        i = i + 1;
        assert(src@.subrange(0, i as int) == src@.subrange(0, i - 1).push(src@[i - 1]));
    }
    assert(src@.subrange(0, src@.len() as int) == src@);
    r
}

/// The display's density: the factor between logical and physical pixels, a
/// single-precision number held as its 32-bit pattern.
#[derive(Clone, Copy, Debug, PartialEq, Eq)]
pub struct Density {
    pub bits: u32,
}

/// An orthographic camera over `width` by `height` logical pixels, one unit to
/// the pixel, that keeps what lies between `near` and `far`.
#[derive(Clone, Copy, Debug, PartialEq, Eq)]
pub struct OrthoCam {
    pub width: i32,
    pub height: i32,
    pub near: i32,
    pub far: i32,
}

impl OrthoCam {
    /// The camera over `width` by `height` pixels with the default planes.
    pub open spec fn spec_sized(width: i32, height: i32) -> OrthoCam {
        OrthoCam { width, height, near: DEFAULT_NEAR, far: DEFAULT_FAR }
    }

    /// The camera over `width` by `height` pixels with the default planes,
    /// far enough apart to keep content that ignores depth.
    #[verifier::when_used_as_spec(spec_sized)]
    pub fn sized(width: i32, height: i32) -> (cam: OrthoCam)
        ensures
            cam == Self::spec_sized(width, height),
    {
        OrthoCam { width, height, near: DEFAULT_NEAR, far: DEFAULT_FAR }
    }
}

/// A source of view and projection matrices: an orthographic camera, from
/// whose numbers the matrices follow, or the two matrices themselves.
#[derive(Clone, Copy, Debug, PartialEq, Eq)]
pub enum Camera {
    Ortho(OrthoCam),
    Fixed { view: Mat4, proj: Mat4 },
}

} // verus!
