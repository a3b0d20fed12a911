//! The graphics context and the values it works with.

use vstd::prelude::*;

pub mod camera;
pub mod canvas;
pub mod command;
pub mod frames;
pub mod gltypes;
pub mod mesh;
pub mod pipeline;
pub mod renderer;
pub mod runs;
pub mod shader;
pub mod texture;
pub mod uniform;

pub use camera::Camera;
pub use camera::Density;
pub use camera::Mat4;
pub use camera::OrthoCam;
pub use canvas::Canvas;
pub use command::DrawCall;
pub use command::GpuCommand;
pub use gltypes::Primitive;
pub use gltypes::Surface;
pub use mesh::Mesh;
pub use mesh::Vertex;
pub use pipeline::Pipeline;
pub use pipeline::ShaderError;
pub use pipeline::ShaderStage;
pub use renderer::BatchState;
pub use renderer::BatchedMesh;
pub use renderer::Submission;
pub use texture::Texture;
pub use uniform::Uniform;
pub use uniform::UniformValue;

use camera::copy_matrices;
use command::commands_view;
use command::DrawCallView;
use command::GpuCommandView;
use gltypes::BlendFac;
use gltypes::Capability;
use gltypes::CullMode;
use gltypes::DepthTest;
use gltypes::Face;
use renderer::BatchView;
use renderer::indices_within;
use renderer::Geometry;
use renderer::SubmissionView;
use uniform::copy_uniforms;
use uniform::uniforms_view;

verus! {

/// The capacity, in vertices and in indices, of the context's mesh.
pub const DRAW_COUNT: usize = 65536;

/// How new fragments combine with what the target already holds.
#[derive(Clone, Copy, Debug, PartialEq, Eq, Structural)]
pub enum Blend {
    Alpha,
    Add,
    Replace,
}

impl Blend {
    /// The source and destination factors of this mode.
    pub open spec fn factors(self) -> (BlendFac, BlendFac) {
        match self {
            Blend::Alpha => (BlendFac::SrcAlpha, BlendFac::OneMinusSrcAlpha),
            Blend::Add => (BlendFac::SrcAlpha, BlendFac::DestAlpha),
            Blend::Replace => (BlendFac::SrcAlpha, BlendFac::Zero),
        }
    }

    /// The source and destination factors of this mode.
    pub fn to_gl(&self) -> (r: (BlendFac, BlendFac))
        ensures
            r == self.factors(),
    {
        match self {
            Blend::Alpha => (BlendFac::SrcAlpha, BlendFac::OneMinusSrcAlpha),
            Blend::Add => (BlendFac::SrcAlpha, BlendFac::DestAlpha),
            Blend::Replace => (BlendFac::SrcAlpha, BlendFac::Zero),
        }
    }
}

/// Which axes an image is mirrored along.
#[derive(Clone, Copy, Debug, PartialEq, Eq, Structural)]
pub enum Flip {
    Neither,
    X,
    Y,
    XY,
}

/// An anchor of a rectangle: one of its corners, the middle of one of its
/// sides, or its centre.
#[derive(Clone, Copy, Debug, PartialEq, Eq, Structural)]
pub enum Origin {
    TopLeft,
    Top,
    TopRight,
    Left,
    Center,
    Right,
    BottomLeft,
    Bottom,
    BottomRight,
}

impl Origin {
    /// The anchor as a point of the square from -1 to 1, x to the right and
    /// y upwards.
    pub open spec fn pt(self) -> (i32, i32) {
        match self {
            Origin::TopLeft => (-1i32, 1),
            Origin::Top => (0, 1),
            Origin::TopRight => (1, 1),
            Origin::Left => (-1i32, 0),
            Origin::Center => (0, 0),
            Origin::Right => (1, 0),
            Origin::BottomLeft => (-1i32, -1i32),
            Origin::Bottom => (0, -1i32),
            Origin::BottomRight => (1, -1i32),
        }
    }

    /// The anchor as a point of the square from -1 to 1, x to the right and
    /// y upwards.
    pub fn as_pt(&self) -> (p: (i32, i32))
        ensures
            p == self.pt(),
            -1 <= p.0 <= 1,
            -1 <= p.1 <= 1,
    {
        match self {
            Origin::TopLeft => (-1, 1),
            Origin::Top => (0, 1),
            Origin::TopRight => (1, 1),
            Origin::Left => (-1, 0),
            Origin::Center => (0, 0),
            Origin::Right => (1, 0),
            Origin::BottomLeft => (-1, -1),
            Origin::Bottom => (0, -1),
            Origin::BottomRight => (1, -1),
        }
    }
}

/// Why an operation of this crate did not succeed.
#[derive(Debug, PartialEq, Eq)]
pub enum Error {
    /// A canvas was already bound when another was to be drawn on.
    CanvasNesting,
    /// One append holds more vertices or indices than the buffers can ever take.
    MeshTooLarge,
    /// An index of an append points past the vertices that came with it.
    IndexOutOfRange,
    /// The buffers were asked to hold more vertices than an index can address.
    CapacityTooLarge,
    /// Drawing code outside this crate failed, with its message.
    Failed(String),
}

/// The bit pattern of the single-precision number one.
pub const ONE: u32 = 0x3f80_0000;

/// What a new context asks of the GPU: blending and depth testing on, alpha
/// blending, a depth test that passes on less or equal; where `cull_face` is
/// set, culling of back faces, with counter-clockwise fronts; then opaque
/// black as the clear colour and a clear of all three surfaces.
pub open spec fn startup_commands(cull_face: bool) -> Seq<GpuCommandView> {
    let head = seq![
        GpuCommandView::Enable(Capability::Blend),
        GpuCommandView::Enable(Capability::DepthTest),
        GpuCommandView::BlendFunc(BlendFac::SrcAlpha, BlendFac::OneMinusSrcAlpha),
        GpuCommandView::DepthFunc(DepthTest::LessOrEqual),
    ];
    let cull = if cull_face {
        seq![
            GpuCommandView::Enable(Capability::CullFace),
            GpuCommandView::CullFace(Face::Back),
            GpuCommandView::FrontFace(CullMode::CounterClockwise),
        ]
    } else {
        Seq::empty()
    };
    let tail = seq![
        GpuCommandView::ClearColor([0, 0, 0, ONE]),
        GpuCommandView::Clear(Surface::Color),
        GpuCommandView::Clear(Surface::Depth),
        GpuCommandView::Clear(Surface::Stencil),
    ];
    head + cull + tail
}

impl Error {
    /// What the error reads as.
    pub open spec fn text(self) -> Seq<char> {
        match self {
            Error::CanvasNesting => "cannot use canvas inside a canvas"@,
            Error::MeshTooLarge => "mesh too large for the draw buffers"@,
            Error::IndexOutOfRange => "index points past the vertices"@,
            Error::CapacityTooLarge => "draw buffers too large to index"@,
            Error::Failed(message) => message@,
        }
    }

    /// The error as one line; a failure of drawing code reads as its message.
    pub fn to_string(&self) -> (s: String)
        ensures
            s@ == self.text(),
    {
        match self {
            Error::CanvasNesting => String::from_str("cannot use canvas inside a canvas"),
            Error::MeshTooLarge => String::from_str("mesh too large for the draw buffers"),
            Error::IndexOutOfRange => String::from_str("index points past the vertices"),
            Error::CapacityTooLarge => String::from_str("draw buffers too large to index"),
            Error::Failed(message) => message.clone(),
        }
    }
}

/// What a [`Gfx`] holds.
pub struct GfxView {
    pub width: i32,
    pub height: i32,
    pub dpi: Density,
    pub camera: Camera,
    pub transform: Seq<Mat4>,
    pub renderer: BatchView<Vertex>,
    pub empty_tex: Texture,
    pub default_pipeline: Pipeline,
    pub pipeline: Pipeline,
    pub uniforms: Option<Seq<Uniform>>,
    pub canvas: Option<Canvas>,
    pub blend: Blend,
    pub draw_calls_last: nat,
    pub draw_calls: nat,
    pub commands: Seq<GpuCommandView>,
}

impl GfxView {
    /// The mesh is well-formed and the counters fit a `usize`.
    pub open spec fn wf(self) -> bool {
        &&& self.renderer.wf()
        &&& self.draw_calls <= usize::MAX
        &&& self.draw_calls_last <= usize::MAX
    }

    /// The same context with the transform `t`.
    pub open spec fn with_transform(self, t: Seq<Mat4>) -> GfxView {
        GfxView { transform: t, ..self }
    }

    /// The same context with the camera `c`.
    pub open spec fn with_camera(self, c: Camera) -> GfxView {
        GfxView { camera: c, ..self }
    }

    /// The context after a switch to the blend mode `b`: flushed, so that what
    /// was staged is drawn in the mode it was staged in, then switched.
    pub open spec fn blend_switched(self, b: Blend) -> GfxView {
        GfxView {
            blend: b,
            ..self.flushed().with_command(GpuCommandView::BlendFunc(b.factors().0, b.factors().1))
        }
    }

    /// The context as the body of `draw_on` finds it: flushed, with a fresh
    /// orthographic camera over the canvas, the identity transform, the
    /// viewport over the canvas, and the canvas bound.
    pub open spec fn canvas_entered(self, canvas: Canvas) -> GfxView {
        GfxView {
            camera: Camera::Ortho(OrthoCam::spec_sized(canvas.width, canvas.height)),
            transform: Seq::empty(),
            canvas: Some(canvas),
            ..self.flushed().with_command(
                GpuCommandView::Viewport {
                    width: canvas.width,
                    height: canvas.height,
                    dpi: self.dpi,
                },
            ).with_command(GpuCommandView::BindCanvas(canvas))
        }
    }

    /// The context as `draw_on` leaves it, where `self` is what its body left
    /// and `before` the context that `draw_on` was called on: flushed, the
    /// canvas unbound, the viewport over the window again, and camera,
    /// transform and canvas as they were before.
    pub open spec fn canvas_left(self, canvas: Canvas, before: GfxView) -> GfxView {
        GfxView {
            camera: before.camera,
            transform: before.transform,
            canvas: before.canvas,
            ..self.flushed().with_command(GpuCommandView::UnbindCanvas(canvas)).with_command(
                GpuCommandView::Viewport { width: self.width, height: self.height, dpi: self.dpi },
            )
        }
    }

    /// The context as the body of `draw_with` finds it: flushed, with the
    /// pipeline `shader` and the custom uniforms `uniforms`.
    pub open spec fn shader_entered(self, shader: Pipeline, uniforms: Seq<Uniform>) -> GfxView {
        GfxView { pipeline: shader, uniforms: Some(uniforms), ..self.flushed() }
    }

    /// The context as `draw_with` leaves it, where `self` is what its body
    /// left and `before` the context that `draw_with` was called on: flushed,
    /// with pipeline and custom uniforms as they were before.
    pub open spec fn shader_left(self, before: GfxView) -> GfxView {
        GfxView { pipeline: before.pipeline, uniforms: before.uniforms, ..self.flushed() }
    }

    /// The context as a new frame finds it: the count of the frame before is
    /// kept, the running count starts at zero, and all surfaces are cleared.
    pub open spec fn began_frame(self) -> GfxView {
        (GfxView { draw_calls_last: self.draw_calls, draw_calls: 0, ..self }).cleared()
    }

    /// The context as a frame leaves it: flushed, with the identity
    /// transform, and with the submissions that the mesh counted added to the
    /// running count, which stops at the largest `usize`.
    pub open spec fn ended_frame(self) -> GfxView {
        let f = self.flushed();
        GfxView {
            transform: Seq::empty(),
            draw_calls: if f.draw_calls + f.renderer.draw_count > usize::MAX {
                usize::MAX as nat
            } else {
                f.draw_calls + f.renderer.draw_count
            },
            renderer: BatchView { draw_count: 0, ..f.renderer },
            ..f
        }
    }

    /// The context after the window was resized to `w` by `h`: the camera is
    /// the orthographic camera over the new size.
    pub open spec fn resized(self, w: i32, h: i32) -> GfxView {
        GfxView {
            width: w,
            height: h,
            camera: Camera::Ortho(OrthoCam::spec_sized(w, h)),
            ..self
        }
    }

    /// A new context: the window's size and density, the orthographic camera
    /// over the window, the identity transform, an empty mesh of the given
    /// capacity, `pipeline` as both the default and the active pipeline, no
    /// custom uniforms, no canvas, alpha blending, both counts at zero, and
    /// the start-up commands recorded.
    pub open spec fn initial(
        width: i32,
        height: i32,
        dpi: Density,
        cull_face: bool,
        pipeline: Pipeline,
        empty_tex: Texture,
        max_vertices: nat,
        max_indices: nat,
    ) -> GfxView {
        GfxView {
            width,
            height,
            dpi,
            camera: Camera::Ortho(OrthoCam::spec_sized(width, height)),
            transform: Seq::empty(),
            renderer: BatchView {
                max_vertices,
                max_indices,
                vertices: Seq::empty(),
                indices: Seq::empty(),
                state: None,
                draw_count: 0,
            },
            empty_tex,
            default_pipeline: pipeline,
            pipeline,
            uniforms: None,
            canvas: None,
            blend: Blend::Alpha,
            draw_calls_last: 0,
            draw_calls: 0,
            commands: startup_commands(cull_face),
        }
    }

    /// The context is between frames: nothing is staged, and the mesh has
    /// counted no submission.
    pub open spec fn idle(self) -> bool {
        !self.renderer.pending() && self.renderer.draw_count == 0
    }

    /// The same context with `c` recorded after the commands it holds.
    pub open spec fn with_command(self, c: GpuCommandView) -> GfxView {
        GfxView { commands: self.commands.push(c), ..self }
    }

    /// The draw call that submits `batch` now: with the camera and the custom
    /// uniforms that are active.
    pub open spec fn draw_command(self, batch: SubmissionView<Vertex>) -> GpuCommandView {
        GpuCommandView::Draw(
            DrawCallView { batch, camera: self.camera, uniforms: self.uniforms },
        )
    }

    /// The context after a flush: where something is staged it is recorded as
    /// one draw call and the mesh is empty.
    pub open spec fn flushed(self) -> GfxView {
        if self.renderer.pending() {
            GfxView {
                renderer: self.renderer.flushed(),
                ..self.with_command(self.draw_command(self.renderer.submission()))
            }
        } else {
            self
        }
    }

    /// The geometry that the context hands to its mesh for a draw of
    /// `vertices` and `indices` as `prim` with `texture`: under the active
    /// pipeline and blend mode, and with the blank texture where none is
    /// given.
    pub open spec fn geometry(
        self,
        prim: Primitive,
        vertices: Seq<Vertex>,
        indices: Seq<u32>,
        texture: Option<Texture>,
    ) -> Geometry<Vertex> {
        Geometry {
            vertices,
            indices,
            state: BatchState {
                pipeline: self.pipeline,
                texture: match texture {
                    Some(t) => t,
                    None => self.empty_tex,
                },
                blend: self.blend,
                prim,
            },
        }
    }

    /// The context after `g` was appended: the mesh has taken it, and the
    /// batch that had to make room, if any, is recorded as a draw call.
    pub open spec fn appended(self, g: Geometry<Vertex>) -> GfxView {
        GfxView {
            renderer: self.renderer.appended(g),
            commands: match self.renderer.append_emits(g) {
                Some(batch) => self.commands.push(self.draw_command(batch)),
                None => self.commands,
            },
            ..self
        }
    }

    /// The context after a clear of `s`: flushed, then the clear recorded.
    pub open spec fn cleared_ex(self, s: Surface) -> GfxView {
        self.flushed().with_command(GpuCommandView::Clear(s))
    }

    /// The context after a clear of all three surfaces.
    pub open spec fn cleared(self) -> GfxView {
        self.flushed().with_command(GpuCommandView::Clear(Surface::Color)).with_command(
            GpuCommandView::Clear(Surface::Depth),
        ).with_command(GpuCommandView::Clear(Surface::Stencil))
    }

    /// Both contexts have the same window size and density, camera,
    /// transform, pipelines, custom uniforms, canvas, blend mode and blank
    /// texture: everything that a scoped operation may override, and what it
    /// is derived from.
    pub open spec fn same_scope(self, other: GfxView) -> bool {
        &&& self.width == other.width
        &&& self.height == other.height
        &&& self.dpi == other.dpi
        &&& self.camera == other.camera
        &&& self.transform == other.transform
        &&& self.empty_tex == other.empty_tex
        &&& self.default_pipeline == other.default_pipeline
        &&& self.pipeline == other.pipeline
        &&& self.uniforms == other.uniforms
        &&& self.canvas == other.canvas
        &&& self.blend == other.blend
    }
}

/// Something that can draw itself into a context.
pub trait Drawable {
    /// What drawing does: how the context `after` the draw, and the result
    /// `r`, relate to the context `before` it. A type that says nothing here
    /// promises nothing beyond a well-formed context.
    open spec fn drawn(&self, before: GfxView, after: GfxView, r: Result<(), Error>) -> bool {
        true
    }

    /// Draws into `ctx`.
    fn draw(&self, ctx: &mut Gfx) -> (r: Result<(), Error>)
        requires
            old(ctx).wf(),
        ensures
            final(ctx).wf(),
            self.drawn(old(ctx)@, final(ctx)@, r),
    ;
}

/// The graphics context.
pub struct Gfx {
    width: i32,
    height: i32,
    dpi: Density,
    camera: Camera,
    transform: Vec<Mat4>,
    renderer: BatchedMesh<Vertex>,
    empty_tex: Texture,
    default_pipeline: Pipeline,
    cur_pipeline: Pipeline,
    cur_custom_uniform: Option<Vec<Uniform>>,
    cur_canvas: Option<Canvas>,
    cur_blend: Blend,
    draw_calls_last: usize,
    draw_calls: usize,
    commands: Vec<GpuCommand>,
}

impl View for Gfx {
    type V = GfxView;

    closed spec fn view(&self) -> GfxView {
        GfxView {
            width: self.width,
            height: self.height,
            dpi: self.dpi,
            camera: self.camera,
            transform: self.transform@,
            renderer: self.renderer@,
            empty_tex: self.empty_tex,
            default_pipeline: self.default_pipeline,
            pipeline: self.cur_pipeline,
            uniforms: uniforms_view(self.cur_custom_uniform),
            canvas: self.cur_canvas,
            blend: self.cur_blend,
            draw_calls_last: self.draw_calls_last as nat,
            draw_calls: self.draw_calls as nat,
            commands: commands_view(self.commands@),
        }
    }
}

impl Gfx {
    /// The invariant of the context.
    pub open spec fn wf(&self) -> bool {
        self@.wf()
    }

    /// A context for a window of `width` by `height` logical pixels at the
    /// density `dpi`, with a mesh of [`DRAW_COUNT`] vertices and indices. The
    /// linked default `pipeline` and the blank texture `empty_tex` come from
    /// the caller; `cull_face` says whether back faces are culled. The
    /// start-up commands are recorded.
    pub fn new(
        width: i32,
        height: i32,
        dpi: Density,
        cull_face: bool,
        pipeline: Pipeline,
        empty_tex: Texture,
    ) -> (r: Result<Gfx, Error>)
        ensures
            r is Ok,
            r.unwrap().wf(),
            r.unwrap()@ == GfxView::initial(
                width,
                height,
                dpi,
                cull_face,
                pipeline,
                empty_tex,
                DRAW_COUNT as nat,
                DRAW_COUNT as nat,
            ),
    {
        Gfx::with_capacity(
            width,
            height,
            dpi,
            cull_face,
            pipeline,
            empty_tex,
            DRAW_COUNT,
            DRAW_COUNT,
        )
    }

    /// As [`Gfx::new`], with a mesh of `max_vertices` vertices and
    /// `max_indices` indices. Fails with `CapacityTooLarge` exactly when
    /// `max_vertices` is more than a 32-bit index can address.
    pub fn with_capacity(
        width: i32,
        height: i32,
        dpi: Density,
        cull_face: bool,
        pipeline: Pipeline,
        empty_tex: Texture,
        max_vertices: usize,
        max_indices: usize,
    ) -> (r: Result<Gfx, Error>)
        ensures
            max_vertices > u32::MAX ==> r == Err::<Gfx, Error>(Error::CapacityTooLarge),
            max_vertices <= u32::MAX ==> r is Ok && r.unwrap().wf() && r.unwrap()@
                == GfxView::initial(
                width,
                height,
                dpi,
                cull_face,
                pipeline,
                empty_tex,
                max_vertices as nat,
                max_indices as nat,
            ),
    {
        let renderer = match BatchedMesh::<Vertex>::new(max_vertices, max_indices) {
            Ok(m) => m,
            Err(e) => { return Err(e); },
        };
        let mut commands: Vec<GpuCommand> = Vec::new();
        commands.push(GpuCommand::Enable(Capability::Blend));
        commands.push(GpuCommand::Enable(Capability::DepthTest));
        commands.push(GpuCommand::BlendFunc(BlendFac::SrcAlpha, BlendFac::OneMinusSrcAlpha));
        commands.push(GpuCommand::DepthFunc(DepthTest::LessOrEqual));
        if cull_face {
            commands.push(GpuCommand::Enable(Capability::CullFace));
            commands.push(GpuCommand::CullFace(Face::Back));
            commands.push(GpuCommand::FrontFace(CullMode::CounterClockwise));
        }
        commands.push(GpuCommand::ClearColor([0, 0, 0, ONE]));
        commands.push(GpuCommand::Clear(Surface::Color));
        commands.push(GpuCommand::Clear(Surface::Depth));
        commands.push(GpuCommand::Clear(Surface::Stencil));
        assert(commands_view(commands@) == startup_commands(cull_face));
        Ok(
            Gfx {
                width,
                height,
                dpi,
                camera: Camera::Ortho(OrthoCam::sized(width, height)),
                transform: Vec::new(),
                renderer,
                empty_tex,
                default_pipeline: pipeline,
                cur_pipeline: pipeline,
                cur_custom_uniform: None,
                cur_canvas: None,
                cur_blend: Blend::Alpha,
                draw_calls_last: 0,
                draw_calls: 0,
                commands,
            },
        )
    }

    /// Records `c` after the commands recorded so far.
    fn record(&mut self, c: GpuCommand)
        ensures
            final(self)@ == old(self)@.with_command(c@),
    {
        let ghost before = self.commands@;
        self.commands.push(c);
        assert(commands_view(self.commands@) == commands_view(before).push(c@));
    }

    /// Submits what is staged as one draw call, with the camera and custom
    /// uniforms that are active now. Does nothing where nothing is staged.
    pub fn flush(&mut self)
        requires
            old(self).wf(),
        ensures
            final(self).wf(),
            final(self)@ == old(self)@.flushed(),
    {
        match self.renderer.flush() {
            Some(batch) => {
                let uniforms = match &self.cur_custom_uniform {
                    Some(u) => Some(copy_uniforms(u)),
                    None => None,
                };
                self.record(GpuCommand::Draw(DrawCall { batch, camera: self.camera, uniforms }));
            },
            None => {},
        }
    }

    /// Flushes, then clears the colour, depth and stencil surfaces.
    pub fn clear(&mut self)
        requires
            old(self).wf(),
        ensures
            final(self).wf(),
            final(self)@ == old(self)@.cleared(),
    {
        self.flush();
        self.record(GpuCommand::Clear(Surface::Color));
        self.record(GpuCommand::Clear(Surface::Depth));
        self.record(GpuCommand::Clear(Surface::Stencil));
    }

    /// Flushes, then clears the surface `s`.
    pub fn clear_ex(&mut self, s: Surface)
        requires
            old(self).wf(),
        ensures
            final(self).wf(),
            final(self)@ == old(self)@.cleared_ex(s),
    {
        self.flush();
        self.record(GpuCommand::Clear(s));
    }

    /// Stages `vertices` and `indices` to be drawn as `prim` with `texture`,
    /// or with the blank texture where none is given, under the active
    /// pipeline and blend mode. A batch that has to make room is recorded as a
    /// draw call first.
    ///
    /// Fails with `MeshTooLarge` where the geometry can never fit the mesh,
    /// and with `IndexOutOfRange` where an index points past `vertices`; the
    /// context is then left as it was.
    pub fn append(
        &mut self,
        prim: Primitive,
        vertices: &[Vertex],
        indices: &[u32],
        texture: Option<Texture>,
    ) -> (r: Result<(), Error>)
        requires
            old(self).wf(),
        ensures
            final(self).wf(),
            ({
                let g = old(self)@.geometry(prim, vertices@, indices@, texture);
                let b = old(self)@.renderer;
                &&& (vertices@.len() > b.max_vertices || indices@.len() > b.max_indices) ==> r
                    == Err::<(), Error>(Error::MeshTooLarge)
                &&& (vertices@.len() <= b.max_vertices && indices@.len() <= b.max_indices
                    && !indices_within(indices@, vertices@.len())) ==> r == Err::<(), Error>(
                    Error::IndexOutOfRange,
                )
                &&& r is Err ==> final(self)@ == old(self)@
                &&& b.accepts(g) ==> r is Ok && final(self)@ == old(self)@.appended(g)
            }),
    {
        let state = BatchState {
            pipeline: self.cur_pipeline,
            texture: match texture {
                Some(t) => t,
                None => self.empty_tex,
            },
            blend: self.cur_blend,
            prim,
        };
        match self.renderer.append(vertices, indices, state) {
            Ok(Some(batch)) => {
                let uniforms = match &self.cur_custom_uniform {
                    Some(u) => Some(copy_uniforms(u)),
                    None => None,
                };
                self.record(GpuCommand::Draw(DrawCall { batch, camera: self.camera, uniforms }));
                Ok(())
            },
            Ok(None) => Ok(()),
            Err(e) => Err(e),
        }
    }

    /// Hands out the commands recorded so far, in order, and starts an empty
    /// record. Nothing else changes.
    pub fn take_commands(&mut self) -> (r: Vec<GpuCommand>)
        ensures
            commands_view(r@) == old(self)@.commands,
            final(self)@ == (GfxView { commands: Seq::empty(), ..old(self)@ }),
    {
        let mut r: Vec<GpuCommand> = Vec::new();
        core::mem::swap(&mut self.commands, &mut r);
        assert(commands_view(self.commands@) == Seq::<GpuCommandView>::empty());
        r
    }

    /// Runs `f` with `t` composed onto the transform, flushes, and puts the
    /// transform back as it was, whether `f` succeeded or not. Returns what
    /// `f` returned.
    pub fn push_t<F: FnOnce(&mut Gfx) -> Result<(), Error>>(&mut self, t: Mat4, f: F) -> (r: Result<
        (),
        Error,
    >)
        requires
            old(self).wf(),
            forall|c: &mut Gfx|
                c.wf() && c@ == old(self)@.with_transform(old(self)@.transform.push(t)) ==> #[trigger] f.requires((c,)),
            forall|c: &mut Gfx, r: Result<(), Error>|
                c.wf() && #[trigger] f.ensures((c,), r) ==> final(c).wf(),
        ensures
            final(self).wf(),
            final(self)@.transform == old(self)@.transform,
            exists|c: &mut Gfx|
                c@ == old(self)@.with_transform(old(self)@.transform.push(t))
                    && #[trigger] f.ensures((c,), r) && final(self)@ == final(c)@.flushed().with_transform(old(self)@.transform),
            (forall|c: &mut Gfx, r: Result<(), Error>| #[trigger]
                f.ensures((c,), r) ==> final(c)@.same_scope(c@)) ==> final(self)@.same_scope(
                old(self)@,
            ),
    {
        let mut saved = copy_matrices(&self.transform);
        saved.push(t);
        core::mem::swap(&mut self.transform, &mut saved);
        let r = f(self);
        self.flush();
        self.transform = saved;
        r
    }

    /// Runs `f` with the identity transform, flushes, and puts the transform
    /// back as it was, whether `f` succeeded or not. Returns what `f`
    /// returned.
    pub fn reset_t<F: FnOnce(&mut Gfx) -> Result<(), Error>>(&mut self, f: F) -> (r: Result<
        (),
        Error,
    >)
        requires
            old(self).wf(),
            forall|c: &mut Gfx|
                c.wf() && c@ == old(self)@.with_transform(Seq::empty())
                    ==> #[trigger] f.requires((c,)),
            forall|c: &mut Gfx, r: Result<(), Error>|
                c.wf() && #[trigger] f.ensures((c,), r) ==> final(c).wf(),
        ensures
            final(self).wf(),
            final(self)@.transform == old(self)@.transform,
            exists|c: &mut Gfx|
                c@ == old(self)@.with_transform(Seq::empty()) && #[trigger] f.ensures(
                    (c,),
                    r,
                ) && final(self)@ == final(c)@.flushed().with_transform(old(self)@.transform),
            (forall|c: &mut Gfx, r: Result<(), Error>| #[trigger]
                f.ensures((c,), r) ==> final(c)@.same_scope(c@)) ==> final(self)@.same_scope(
                old(self)@,
            ),
    {
        let mut saved: Vec<Mat4> = Vec::new();
        core::mem::swap(&mut self.transform, &mut saved);
        let r = f(self);
        self.flush();
        self.transform = saved;
        r
    }

    /// Lets `shape` draw itself into the context.
    pub fn draw<D: Drawable>(&mut self, shape: &D) -> (r: Result<(), Error>)
        requires
            old(self).wf(),
        ensures
            final(self).wf(),
            shape.drawn(old(self)@, final(self)@, r),
    {
        shape.draw(self)
    }

    /// Draws `shape` with `t` composed onto the transform; see
    /// [`Gfx::push_t`].
    pub fn draw_t<D: Drawable>(&mut self, t: Mat4, shape: &D) -> (r: Result<(), Error>)
        requires
            old(self).wf(),
        ensures
            final(self).wf(),
            final(self)@.transform == old(self)@.transform,
            exists|mid: GfxView|
                #[trigger] shape.drawn(
                    old(self)@.with_transform(old(self)@.transform.push(t)),
                    mid,
                    r,
                ) && final(self)@ == mid.flushed().with_transform(old(self)@.transform),
    {
        let body = |ctx: &mut Gfx| -> (r: Result<(), Error>)
            requires
                old(ctx).wf(),
            ensures
                final(ctx).wf(),
                shape.drawn(old(ctx)@, final(ctx)@, r),
            { ctx.draw(shape) };
        self.push_t(t, body)
    }

    /// Runs `f` with the view and projection of `cam`, flushes, and puts the
    /// camera back as it was, whether `f` succeeded or not. Returns what `f`
    /// returned.
    pub fn use_cam<F: FnOnce(&mut Gfx) -> Result<(), Error>>(&mut self, cam: &Camera, f: F) -> (r:
        Result<(), Error>)
        requires
            old(self).wf(),
            forall|c: &mut Gfx|
                c.wf() && c@ == old(self)@.with_camera(*cam) ==> #[trigger] f.requires((c,)),
            forall|c: &mut Gfx, r: Result<(), Error>|
                c.wf() && #[trigger] f.ensures((c,), r) ==> final(c).wf(),
        ensures
            final(self).wf(),
            final(self)@.camera == old(self)@.camera,
            exists|c: &mut Gfx|
                c@ == old(self)@.with_camera(*cam) && #[trigger] f.ensures((c,), r) && final(self)@
                    == final(c)@.flushed().with_camera(old(self)@.camera),
            (forall|c: &mut Gfx, r: Result<(), Error>| #[trigger]
                f.ensures((c,), r) ==> final(c)@.same_scope(c@)) ==> final(self)@.same_scope(
                old(self)@,
            ),
    {
        let saved = self.camera;
        self.apply_cam(cam);
        let r = f(self);
        self.flush();
        self.camera = saved;
        r
    }

    /// Runs `f` with the camera over the whole window; see [`Gfx::use_cam`].
    pub fn use_default_cam<F: FnOnce(&mut Gfx) -> Result<(), Error>>(&mut self, f: F) -> (r:
        Result<(), Error>)
        requires
            old(self).wf(),
            forall|c: &mut Gfx|
                c.wf() && c@ == old(self)@.with_camera(
                    Camera::Ortho(OrthoCam::spec_sized(old(self)@.width, old(self)@.height)),
                ) ==> #[trigger] f.requires((c,)),
            forall|c: &mut Gfx, r: Result<(), Error>|
                c.wf() && #[trigger] f.ensures((c,), r) ==> final(c).wf(),
        ensures
            final(self).wf(),
            final(self)@.camera == old(self)@.camera,
            exists|c: &mut Gfx|
                c@ == old(self)@.with_camera(
                    Camera::Ortho(OrthoCam::spec_sized(old(self)@.width, old(self)@.height)),
                ) && #[trigger] f.ensures((c,), r) && final(self)@ == final(c)@.flushed().with_camera(
                    old(self)@.camera,
                ),
            (forall|c: &mut Gfx, r: Result<(), Error>| #[trigger]
                f.ensures((c,), r) ==> final(c)@.same_scope(c@)) ==> final(self)@.same_scope(
                old(self)@,
            ),
    {
        let cam = Camera::Ortho(self.default_cam());
        self.use_cam(&cam, f)
    }

    /// Takes view and projection from `cam` from now on.
    pub fn apply_cam(&mut self, cam: &Camera)
        ensures
            final(self)@ == old(self)@.with_camera(*cam),
    {
        self.camera = *cam;
    }

    /// The orthographic camera over the whole window.
    pub fn default_cam(&self) -> (cam: OrthoCam)
        ensures
            cam == OrthoCam::spec_sized(self@.width, self@.height),
    {
        OrthoCam::sized(self.width, self.height)
    }

    /// Runs `f` with the blend mode `b`. The context flushes before it
    /// switches to `b`, so that what was staged is drawn in the mode it was
    /// staged in, and flushes again before it switches back to the mode that
    /// was active, whether `f` succeeded or not. Returns what `f` returned.
    pub fn use_blend<F: FnOnce(&mut Gfx) -> Result<(), Error>>(&mut self, b: Blend, f: F) -> (r:
        Result<(), Error>)
        requires
            old(self).wf(),
            forall|c: &mut Gfx|
                c.wf() && c@ == old(self)@.blend_switched(b) ==> #[trigger] f.requires((c,)),
            forall|c: &mut Gfx, r: Result<(), Error>|
                c.wf() && #[trigger] f.ensures((c,), r) ==> final(c).wf(),
        ensures
            final(self).wf(),
            final(self)@.blend == old(self)@.blend,
            exists|c: &mut Gfx|
                c@ == old(self)@.blend_switched(b) && #[trigger] f.ensures((c,), r) && final(self)@
                    == final(c)@.blend_switched(old(self)@.blend),
            (forall|c: &mut Gfx, r: Result<(), Error>| #[trigger]
                f.ensures((c,), r) ==> final(c)@.same_scope(c@)) ==> final(self)@.same_scope(
                old(self)@,
            ),
    {
        let saved = self.cur_blend;
        let (src, dest) = b.to_gl();
        let (dsrc, ddest) = saved.to_gl();
        self.flush();
        self.record(GpuCommand::BlendFunc(src, dest));
        self.cur_blend = b;
        let r = f(self);
        self.flush();
        self.record(GpuCommand::BlendFunc(dsrc, ddest));
        self.cur_blend = saved;
        r
    }

    /// Runs `f` with `canvas` as the render target.
    ///
    /// Where a canvas is bound already, fails with `CanvasNesting` and leaves
    /// the context untouched; `f` is not run. Otherwise the context flushes,
    /// takes a fresh orthographic camera over the canvas and the identity
    /// transform, sets the viewport over the canvas, binds the canvas and
    /// runs `f`. Whether `f` succeeded or not, it then flushes, unbinds the
    /// canvas, sets the viewport over the window, and puts camera, transform
    /// and canvas back as they were. Returns what `f` returned.
    pub fn draw_on<F: FnOnce(&mut Gfx) -> Result<(), Error>>(&mut self, canvas: &Canvas, f: F) -> (r:
        Result<(), Error>)
        requires
            old(self).wf(),
            forall|c: &mut Gfx|
                c.wf() && c@ == old(self)@.canvas_entered(*canvas) ==> #[trigger] f.requires((c,)),
            forall|c: &mut Gfx, r: Result<(), Error>|
                c.wf() && #[trigger] f.ensures((c,), r) ==> final(c).wf(),
        ensures
            final(self).wf(),
            old(self)@.canvas is Some ==> r == Err::<(), Error>(Error::CanvasNesting) && final(self)@
                == old(self)@,
            old(self)@.canvas is None ==> exists|c: &mut Gfx|
                c@ == old(self)@.canvas_entered(*canvas) && #[trigger] f.ensures((c,), r)
                    && final(self)@ == final(c)@.canvas_left(*canvas, old(self)@),
            final(self)@.camera == old(self)@.camera,
            final(self)@.transform == old(self)@.transform,
            final(self)@.canvas == old(self)@.canvas,
            (forall|c: &mut Gfx, r: Result<(), Error>| #[trigger]
                f.ensures((c,), r) ==> final(c)@.same_scope(c@)) ==> final(self)@.same_scope(
                old(self)@,
            ),
    {
        if self.cur_canvas.is_some() {
            return Err(Error::CanvasNesting);
        }
        self.flush();
        let (cw, ch) = (canvas.width(), canvas.height());
        let saved_camera = self.camera;
        let saved_canvas = self.cur_canvas;
        let mut saved_transform: Vec<Mat4> = Vec::new();
        core::mem::swap(&mut self.transform, &mut saved_transform);
        self.camera = Camera::Ortho(OrthoCam::sized(cw, ch));
        self.cur_canvas = Some(*canvas);
        self.record(GpuCommand::Viewport { width: cw, height: ch, dpi: self.dpi });
        self.record(GpuCommand::BindCanvas(*canvas));
        let r = f(self);
        self.flush();
        self.record(GpuCommand::UnbindCanvas(*canvas));
        self.record(GpuCommand::Viewport { width: self.width, height: self.height, dpi: self.dpi });
        self.cur_canvas = saved_canvas;
        self.transform = saved_transform;
        self.camera = saved_camera;
        r
    }

    /// Runs `f` with the pipeline `shader` and the custom uniforms
    /// `uniforms`, which go with every draw call submitted while they are
    /// active. The context flushes before it installs them, and flushes again
    /// before it puts pipeline and uniforms back as they were, whether `f`
    /// succeeded or not. Returns what `f` returned.
    pub fn draw_with<F: FnOnce(&mut Gfx) -> Result<(), Error>>(
        &mut self,
        shader: &Pipeline,
        uniforms: Vec<Uniform>,
        f: F,
    ) -> (r: Result<(), Error>)
        requires
            old(self).wf(),
            forall|c: &mut Gfx|
                c.wf() && c@ == old(self)@.shader_entered(*shader, uniforms@) ==> #[trigger] f.requires(
                    (c,),
                ),
            forall|c: &mut Gfx, r: Result<(), Error>|
                c.wf() && #[trigger] f.ensures((c,), r) ==> final(c).wf(),
        ensures
            final(self).wf(),
            final(self)@.pipeline == old(self)@.pipeline,
            final(self)@.uniforms == old(self)@.uniforms,
            exists|c: &mut Gfx|
                c@ == old(self)@.shader_entered(*shader, uniforms@) && #[trigger] f.ensures((c,), r)
                    && final(self)@ == final(c)@.shader_left(old(self)@),
            (forall|c: &mut Gfx, r: Result<(), Error>| #[trigger]
                f.ensures((c,), r) ==> final(c)@.same_scope(c@)) ==> final(self)@.same_scope(
                old(self)@,
            ),
    {
        let prev_pipeline = self.cur_pipeline;
        let mut prev_uniform = Some(uniforms);
        self.flush();
        core::mem::swap(&mut self.cur_custom_uniform, &mut prev_uniform);
        self.cur_pipeline = *shader;
        let r = f(self);
        self.flush();
        self.cur_pipeline = prev_pipeline;
        self.cur_custom_uniform = prev_uniform;
        r
    }

    /// Does nothing and succeeds: neither `mask` nor `draw` is run, and the
    /// context is left as it was.
    pub fn draw_masked<M: FnOnce(&mut Gfx) -> Result<(), Error>, D: FnOnce(&mut Gfx) -> Result<
        (),
        Error,
    >>(&mut self, mask: M, draw: D) -> (r: Result<(), Error>)
        ensures
            r is Ok,
            final(self)@ == old(self)@,
    {
        Ok(())
    }

    /// Starts a frame: keeps the count of the frame before, starts the
    /// running count at zero, and clears all surfaces.
    pub fn begin_frame(&mut self)
        requires
            old(self).wf(),
        ensures
            final(self).wf(),
            final(self)@ == old(self)@.began_frame(),
    {
        self.draw_calls_last = self.draw_calls;
        self.draw_calls = 0;
        self.clear();
    }

    /// Ends a frame: flushes, so that nothing staged outlives the frame, goes
    /// back to the identity transform, and adds the submissions that the mesh
    /// counted to the running count.
    pub fn end_frame(&mut self)
        requires
            old(self).wf(),
        ensures
            final(self).wf(),
            final(self)@ == old(self)@.ended_frame(),
            final(self)@.idle(),
            final(self)@.transform == Seq::<Mat4>::empty(),
    {
        self.flush();
        self.transform = Vec::new();
        self.draw_calls = self.draw_calls.saturating_add(self.renderer.draw_count());
        self.renderer.clear_draw_count();
    }

    /// Takes the window's new size and puts the camera over it.
    pub fn resize(&mut self, w: i32, h: i32)
        ensures
            final(self)@ == old(self)@.resized(w, h),
    {
        self.width = w;
        self.height = h;
        let cam = Camera::Ortho(self.default_cam());
        self.apply_cam(&cam);
    }

    /// Takes the display's new density.
    pub fn set_dpi(&mut self, dpi: Density)
        ensures
            final(self)@ == (GfxView { dpi, ..old(self)@ }),
    {
        self.dpi = dpi;
    }

    /// The transform: the matrices composed so far, first to last. The
    /// identity is the empty list.
    pub fn transform(&self) -> (t: &Vec<Mat4>)
        ensures
            t@ == self@.transform,
    {
        &self.transform
    }

    /// The window's width in logical pixels.
    pub fn width(&self) -> (w: i32)
        ensures
            w == self@.width,
    {
        self.width
    }

    /// The window's height in logical pixels.
    pub fn height(&self) -> (h: i32)
        ensures
            h == self@.height,
    {
        self.height
    }

    /// The display's density.
    pub fn dpi(&self) -> (d: Density)
        ensures
            d == self@.dpi,
    {
        self.dpi
    }

    /// How many draw calls the last finished frame submitted.
    pub fn draw_calls(&self) -> (n: usize)
        ensures
            n == self@.draw_calls_last,
    {
        self.draw_calls_last
    }

    /// The camera that draw calls take view and projection from.
    pub fn camera(&self) -> (c: Camera)
        ensures
            c == self@.camera,
    {
        self.camera
    }

    /// The canvas that is bound, if one is.
    pub fn canvas(&self) -> (c: Option<Canvas>)
        ensures
            c == self@.canvas,
    {
        self.cur_canvas
    }

    /// The blend mode that is active.
    pub fn blend(&self) -> (b: Blend)
        ensures
            b == self@.blend,
    {
        self.cur_blend
    }

    /// The pipeline that is active.
    pub fn pipeline(&self) -> (p: Pipeline)
        ensures
            p == self@.pipeline,
    {
        self.cur_pipeline
    }

    /// The pipeline that new contexts start with.
    pub fn default_pipeline(&self) -> (p: Pipeline)
        ensures
            p == self@.default_pipeline,
    {
        self.default_pipeline
    }

    /// The custom uniforms that are active, if any are.
    pub fn uniforms(&self) -> (u: &Option<Vec<Uniform>>)
        ensures
            uniforms_view(*u) == self@.uniforms,
    {
        &self.cur_custom_uniform
    }
}

} // verus!
