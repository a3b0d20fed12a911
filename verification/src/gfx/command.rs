//! What the context asks the GPU to do.

use vstd::prelude::*;
use super::camera::Camera;
use super::camera::Density;
use super::canvas::Canvas;
use super::gltypes::BlendFac;
use super::gltypes::Capability;
use super::gltypes::CullMode;
use super::gltypes::DepthTest;
use super::gltypes::Face;
use super::gltypes::Surface;
use super::mesh::Vertex;
use super::renderer::Submission;
use super::renderer::SubmissionView;
use super::uniform::uniforms_view;
use super::uniform::Uniform;

verus! {

/// One indexed draw: a batch, the camera whose matrices it is drawn with, and
/// the custom uniforms of its shader, if it has any.
#[derive(Debug, PartialEq, Eq)]
pub struct DrawCall {
    pub batch: Submission<Vertex>,
    pub camera: Camera,
    pub uniforms: Option<Vec<Uniform>>,
}

/// What a [`DrawCall`] holds.
pub struct DrawCallView {
    pub batch: SubmissionView<Vertex>,
    pub camera: Camera,
    pub uniforms: Option<Seq<Uniform>>,
}

impl View for DrawCall {
    type V = DrawCallView;

    open spec fn view(&self) -> DrawCallView {
        DrawCallView {
            batch: self.batch@,
            camera: self.camera,
            uniforms: uniforms_view(self.uniforms),
        }
    }
}

/// One operation for the GPU. The context records them in the order in which
/// they have to be performed.
#[derive(Debug, PartialEq, Eq)]
pub enum GpuCommand {
    Enable(Capability),
    BlendFunc(BlendFac, BlendFac),
    DepthFunc(DepthTest),
    CullFace(Face),
    FrontFace(CullMode),
    /// Red, green, blue and alpha, each a single-precision number held as its
    /// 32-bit pattern.
    ClearColor([u32; 4]),
    Clear(Surface),
    /// A viewport at the origin over `width` by `height` logical pixels, to be
    /// scaled by `dpi`.
    Viewport { width: i32, height: i32, dpi: Density },
    BindCanvas(Canvas),
    UnbindCanvas(Canvas),
    Draw(DrawCall),
}

/// What a [`GpuCommand`] holds.
pub enum GpuCommandView {
    Enable(Capability),
    BlendFunc(BlendFac, BlendFac),
    DepthFunc(DepthTest),
    CullFace(Face),
    FrontFace(CullMode),
    ClearColor([u32; 4]),
    Clear(Surface),
    Viewport { width: i32, height: i32, dpi: Density },
    BindCanvas(Canvas),
    UnbindCanvas(Canvas),
    Draw(DrawCallView),
}

impl View for GpuCommand {
    type V = GpuCommandView;

    open spec fn view(&self) -> GpuCommandView {
        match *self {
            GpuCommand::Enable(c) => GpuCommandView::Enable(c),
            GpuCommand::BlendFunc(s, d) => GpuCommandView::BlendFunc(s, d),
            GpuCommand::DepthFunc(t) => GpuCommandView::DepthFunc(t),
            GpuCommand::CullFace(f) => GpuCommandView::CullFace(f),
            GpuCommand::FrontFace(m) => GpuCommandView::FrontFace(m),
            GpuCommand::ClearColor(c) => GpuCommandView::ClearColor(c),
            GpuCommand::Clear(s) => GpuCommandView::Clear(s),
            GpuCommand::Viewport { width, height, dpi } => GpuCommandView::Viewport {
                width,
                height,
                dpi,
            },
            GpuCommand::BindCanvas(c) => GpuCommandView::BindCanvas(c),
            GpuCommand::UnbindCanvas(c) => GpuCommandView::UnbindCanvas(c),
            GpuCommand::Draw(d) => GpuCommandView::Draw(d@),
        }
    }
}

/// What a list of commands holds, command by command.
pub open spec fn commands_view(c: Seq<GpuCommand>) -> Seq<GpuCommandView> {
    c.map_values(|x: GpuCommand| x@)
}

} // verus!
