//! Values that a custom shader takes as uniforms.

use vstd::prelude::*;
use super::camera::Mat4;

verus! {

/// The value of one uniform; each number is held as its 32-bit pattern.
#[derive(Clone, Copy, Debug, PartialEq, Eq)]
pub enum UniformValue {
    F1(u32),
    F2([u32; 2]),
    F3([u32; 3]),
    F4([u32; 4]),
    Mat4(Mat4),
}

/// A custom uniform: the name it has in the shader, and its value.
#[derive(Clone, Copy, Debug, PartialEq, Eq)]
pub struct Uniform {
    pub name: &'static str,
    pub value: UniformValue,
}

/// What an optional list of uniforms holds.
pub open spec fn uniforms_view(u: Option<Vec<Uniform>>) -> Option<Seq<Uniform>> {
    match u {
        Some(v) => Some(v@),
        None => None,
    }
}

/// A copy of `src`.
pub fn copy_uniforms(src: &Vec<Uniform>) -> (r: Vec<Uniform>)
    ensures
        r@ == src@,
{
    let mut r: Vec<Uniform> = Vec::new();
    let mut i: usize = 0;
    while i < src.len()
        invariant
            i <= src.len(),
            r@ == src@.subrange(0, i as int),
        decreases src.len() - i,
    {
        r.push(src[i]);
        i = i + 1;
        assert(src@.subrange(0, i as int) == src@.subrange(0, i - 1).push(src@[i - 1]));
    }
    assert(src@.subrange(0, src@.len() as int) == src@);
    r
}

} // verus!
