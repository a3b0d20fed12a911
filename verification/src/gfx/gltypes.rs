//! Names for the GPU enumerations the renderer uses, with their numeric codes.

use vstd::prelude::*;

verus! {

/// A clearable part of the render target.
#[derive(Clone, Copy, Debug, PartialEq, Eq, Structural)]
pub enum Surface {
    Color,
    Depth,
    Stencil,
}

impl Surface {
    pub open spec fn code(self) -> u32 {
        match self {
            Surface::Color => 0x4000,
            Surface::Depth => 0x0100,
            Surface::Stencil => 0x0400,
        }
    }

    /// The buffer bit of this surface.
    pub fn to_gl(&self) -> (r: u32)
        ensures
            r == self.code(),
    {
        match self {
            Surface::Color => 0x4000,
            Surface::Depth => 0x0100,
            Surface::Stencil => 0x0400,
        }
    }
}

/// How the indices of a draw call are assembled into shapes.
#[derive(Clone, Copy, Debug, PartialEq, Eq, Structural)]
pub enum Primitive {
    Point,
    Line,
    LineLoop,
    LineStrip,
    Triangle,
    TriangleStrip,
    TriangleFan,
}

impl Primitive {
    pub open spec fn code(self) -> u32 {
        match self {
            Primitive::Point => 0,
            Primitive::Line => 1,
            Primitive::LineLoop => 2,
            Primitive::LineStrip => 3,
            Primitive::Triangle => 4,
            Primitive::TriangleStrip => 5,
            Primitive::TriangleFan => 6,
        }
    }

    /// The draw mode of this topology.
    pub fn to_gl(&self) -> (r: u32)
        ensures
            r == self.code(),
    {
        match self {
            Primitive::Point => 0,
            Primitive::Line => 1,
            Primitive::LineLoop => 2,
            Primitive::LineStrip => 3,
            Primitive::Triangle => 4,
            Primitive::TriangleStrip => 5,
            Primitive::TriangleFan => 6,
        }
    }
}

/// A factor of the blend equation.
#[derive(Clone, Copy, Debug, PartialEq, Eq, Structural)]
pub enum BlendFac {
    Zero,
    One,
    SrcColor,
    OneMinusSrcColor,
    SrcAlpha,
    OneMinusSrcAlpha,
    DestAlpha,
    OneMinusDestAlpha,
    DestColor,
    OneMinusDestColor,
    SrcAlphaSaturate,
}

impl BlendFac {
    pub open spec fn code(self) -> u32 {
        match self {
            BlendFac::Zero => 0,
            BlendFac::One => 1,
            BlendFac::SrcColor => 0x0300,
            BlendFac::OneMinusSrcColor => 0x0301,
            BlendFac::SrcAlpha => 0x0302,
            BlendFac::OneMinusSrcAlpha => 0x0303,
            BlendFac::DestAlpha => 0x0304,
            BlendFac::OneMinusDestAlpha => 0x0305,
            BlendFac::DestColor => 0x0306,
            BlendFac::OneMinusDestColor => 0x0307,
            BlendFac::SrcAlphaSaturate => 0x0308,
        }
    }

    /// The code of this blend factor.
    pub fn to_gl(&self) -> (r: u32)
        ensures
            r == self.code(),
    {
        match self {
            BlendFac::Zero => 0,
            BlendFac::One => 1,
            BlendFac::SrcColor => 0x0300,
            BlendFac::OneMinusSrcColor => 0x0301,
            BlendFac::SrcAlpha => 0x0302,
            BlendFac::OneMinusSrcAlpha => 0x0303,
            BlendFac::DestAlpha => 0x0304,
            BlendFac::OneMinusDestAlpha => 0x0305,
            BlendFac::DestColor => 0x0306,
            BlendFac::OneMinusDestColor => 0x0307,
            BlendFac::SrcAlphaSaturate => 0x0308,
        }
    }
}

/// A switchable stage of the fixed pipeline.
#[derive(Clone, Copy, Debug, PartialEq, Eq, Structural)]
pub enum Capability {
    Blend,
    CullFace,
    DepthTest,
    StencilTest,
    ScissorTest,
}

impl Capability {
    pub open spec fn code(self) -> u32 {
        match self {
            Capability::Blend => 0x0BE2,
            Capability::CullFace => 0x0B44,
            Capability::DepthTest => 0x0B71,
            Capability::StencilTest => 0x0B90,
            Capability::ScissorTest => 0x0C11,
        }
    }

    /// The code of this capability.
    pub fn to_gl(&self) -> (r: u32)
        ensures
            r == self.code(),
    {
        match self {
            Capability::Blend => 0x0BE2,
            Capability::CullFace => 0x0B44,
            Capability::DepthTest => 0x0B71,
            Capability::StencilTest => 0x0B90,
            Capability::ScissorTest => 0x0C11,
        }
    }
}

/// The test a fragment's depth has to pass.
#[derive(Clone, Copy, Debug, PartialEq, Eq, Structural)]
pub enum DepthTest {
    Never,
    Less,
    Equal,
    LessOrEqual,
    Greater,
    NotEqual,
    GreaterOrEqual,
    Always,
}

impl DepthTest {
    pub open spec fn code(self) -> u32 {
        match self {
            DepthTest::Never => 0x0200,
            DepthTest::Less => 0x0201,
            DepthTest::Equal => 0x0202,
            DepthTest::LessOrEqual => 0x0203,
            DepthTest::Greater => 0x0204,
            DepthTest::NotEqual => 0x0205,
            DepthTest::GreaterOrEqual => 0x0206,
            DepthTest::Always => 0x0207,
        }
    }

    /// The code of this depth test.
    pub fn to_gl(&self) -> (r: u32)
        ensures
            r == self.code(),
    {
        match self {
            DepthTest::Never => 0x0200,
            DepthTest::Less => 0x0201,
            DepthTest::Equal => 0x0202,
            DepthTest::LessOrEqual => 0x0203,
            DepthTest::Greater => 0x0204,
            DepthTest::NotEqual => 0x0205,
            DepthTest::GreaterOrEqual => 0x0206,
            DepthTest::Always => 0x0207,
        }
    }
}

/// The side of a polygon that culling removes.
#[derive(Clone, Copy, Debug, PartialEq, Eq, Structural)]
pub enum Face {
    Front,
    Back,
    FrontAndBack,
}

impl Face {
    pub open spec fn code(self) -> u32 {
        match self {
            Face::Front => 0x0404,
            Face::Back => 0x0405,
            Face::FrontAndBack => 0x0408,
        }
    }

    /// The code of this face.
    pub fn to_gl(&self) -> (r: u32)
        ensures
            r == self.code(),
    {
        match self {
            Face::Front => 0x0404,
            Face::Back => 0x0405,
            Face::FrontAndBack => 0x0408,
        }
    }
}

/// The winding that marks a polygon as front-facing.
#[derive(Clone, Copy, Debug, PartialEq, Eq, Structural)]
pub enum CullMode {
    Clockwise,
    CounterClockwise,
}

impl CullMode {
    pub open spec fn code(self) -> u32 {
        match self {
            CullMode::Clockwise => 0x0900,
            CullMode::CounterClockwise => 0x0901,
        }
    }

    /// The code of this winding.
    pub fn to_gl(&self) -> (r: u32)
        ensures
            r == self.code(),
    {
        match self {
            CullMode::Clockwise => 0x0900,
            CullMode::CounterClockwise => 0x0901,
        }
    }
}

} // verus!
