use dirty::gfx::gltypes::BlendFac;
use dirty::gfx::gltypes::Capability;
use dirty::gfx::gltypes::CullMode;
use dirty::gfx::gltypes::DepthTest;
use dirty::gfx::gltypes::Face;
use dirty::gfx::BatchState;
use dirty::gfx::Blend;
use dirty::gfx::Camera;
use dirty::gfx::Canvas;
use dirty::gfx::Density;
use dirty::gfx::DrawCall;
use dirty::gfx::Drawable;
use dirty::gfx::Error;
use dirty::gfx::Gfx;
use dirty::gfx::GpuCommand;
use dirty::gfx::Mat4;
use dirty::gfx::Mesh;
use dirty::gfx::OrthoCam;
use dirty::gfx::Pipeline;
use dirty::gfx::Primitive;
use dirty::gfx::Surface;
use dirty::gfx::Texture;
use dirty::gfx::Uniform;
use dirty::gfx::UniformValue;
use dirty::gfx::Vertex;
use dirty::gfx::DRAW_COUNT;
use dirty::gfx::ONE;

const DEFAULT: Pipeline = Pipeline { program: 1 };
const BLANK: Texture = Texture { id: 100, width: 1, height: 1 };

fn dpi(factor: f32) -> Density {
    Density { bits: factor.to_bits() }
}

fn context() -> Gfx {
    let mut ctx = Gfx::new(640, 480, dpi(2.0), false, DEFAULT, BLANK).unwrap();
    ctx.take_commands();
    ctx
}

fn vertex(x: f32, y: f32) -> Vertex {
    Vertex {
        pos: [x.to_bits(), y.to_bits(), 0f32.to_bits()],
        normal: [0f32.to_bits(), 0f32.to_bits(), 1f32.to_bits()],
        uv: [x.to_bits(), y.to_bits()],
        color: [ONE; 4],
    }
}

fn quad() -> Mesh {
    Mesh {
        prim: Primitive::Triangle,
        vertices: vec![vertex(0.0, 0.0), vertex(1.0, 0.0), vertex(1.0, 1.0), vertex(0.0, 1.0)],
        indices: vec![0, 1, 2, 0, 2, 3],
        texture: None,
    }
}

fn translate(x: f32, y: f32) -> Mat4 {
    let mut m = [0f32; 16];
    m[0] = 1.0;
    m[5] = 1.0;
    m[10] = 1.0;
    m[15] = 1.0;
    m[12] = x;
    m[13] = y;
    Mat4 { m: m.map(f32::to_bits) }
}

fn draws(commands: &[GpuCommand]) -> Vec<&DrawCall> {
    commands
        .iter()
        .filter_map(|c| match c {
            GpuCommand::Draw(d) => Some(d),
            _ => None,
        })
        .collect()
}

/// What the scoped operations save and put back.
fn scope(ctx: &Gfx) -> (Vec<Mat4>, Camera, Option<Canvas>, Blend, Pipeline, Option<Vec<Uniform>>, i32, i32, Density) {
    (
        ctx.transform().clone(),
        ctx.camera(),
        ctx.canvas(),
        ctx.blend(),
        ctx.pipeline(),
        ctx.uniforms().clone(),
        ctx.width(),
        ctx.height(),
        ctx.dpi(),
    )
}

#[test]
fn a_new_context_records_the_start_up_commands() {
    let mut ctx = Gfx::new(640, 480, dpi(1.0), false, DEFAULT, BLANK).unwrap();
    assert_eq!(
        ctx.take_commands(),
        vec![
            GpuCommand::Enable(Capability::Blend),
            GpuCommand::Enable(Capability::DepthTest),
            GpuCommand::BlendFunc(BlendFac::SrcAlpha, BlendFac::OneMinusSrcAlpha),
            GpuCommand::DepthFunc(DepthTest::LessOrEqual),
            GpuCommand::ClearColor([0, 0, 0, 1f32.to_bits()]),
            GpuCommand::Clear(Surface::Color),
            GpuCommand::Clear(Surface::Depth),
            GpuCommand::Clear(Surface::Stencil),
        ]
    );
    assert!(ctx.take_commands().is_empty());
}

#[test]
fn a_new_context_with_culling_records_it() {
    let mut ctx = Gfx::new(640, 480, dpi(1.0), true, DEFAULT, BLANK).unwrap();
    let commands = ctx.take_commands();
    assert_eq!(commands.len(), 11);
    assert_eq!(
        commands[4..7],
        [
            GpuCommand::Enable(Capability::CullFace),
            GpuCommand::CullFace(Face::Back),
            GpuCommand::FrontFace(CullMode::CounterClockwise),
        ]
    );
}

#[test]
fn a_new_context_starts_from_the_defaults() {
    let ctx = Gfx::new(640, 480, dpi(2.0), false, DEFAULT, BLANK).unwrap();
    assert_eq!(ctx.width(), 640);
    assert_eq!(ctx.height(), 480);
    assert_eq!(ctx.dpi(), dpi(2.0));
    assert!(ctx.transform().is_empty());
    assert_eq!(ctx.camera(), Camera::Ortho(OrthoCam { width: 640, height: 480, near: -4096, far: 4096 }));
    assert_eq!(ctx.canvas(), None);
    assert_eq!(ctx.blend(), Blend::Alpha);
    assert_eq!(ctx.pipeline(), DEFAULT);
    assert_eq!(ctx.default_pipeline(), DEFAULT);
    assert_eq!(*ctx.uniforms(), None);
    assert_eq!(ctx.draw_calls(), 0);
    assert_eq!(DRAW_COUNT, 65536);
}

#[test]
fn a_context_that_an_index_cannot_address_is_refused() {
    if usize::BITS > 32 {
        let too_many = (u32::MAX as usize) + 1;
        let r = Gfx::with_capacity(640, 480, dpi(1.0), false, DEFAULT, BLANK, too_many, 6);
        assert_eq!(r.err(), Some(Error::CapacityTooLarge));
    }
}

#[test]
fn flush_records_one_draw_call_with_camera_and_state() {
    let mut ctx = context();
    ctx.draw(&quad()).unwrap();
    assert!(ctx.take_commands().is_empty());
    ctx.flush();
    let commands = ctx.take_commands();
    assert_eq!(commands.len(), 1);
    let d = draws(&commands)[0];
    assert_eq!(
        d.batch.state,
        BatchState { pipeline: DEFAULT, texture: BLANK, blend: Blend::Alpha, prim: Primitive::Triangle }
    );
    assert_eq!(d.batch.vertices, quad().vertices);
    assert_eq!(d.batch.indices, vec![0, 1, 2, 0, 2, 3]);
    assert_eq!(d.camera, Camera::Ortho(OrthoCam::sized(640, 480)));
    assert_eq!(d.uniforms, None);
    ctx.flush();
    assert!(ctx.take_commands().is_empty());
}

#[test]
fn draws_with_one_state_share_a_draw_call() {
    let mut ctx = context();
    for _ in 0..10 {
        ctx.draw(&quad()).unwrap();
    }
    ctx.flush();
    let commands = ctx.take_commands();
    assert_eq!(commands.len(), 1);
    assert_eq!(draws(&commands)[0].batch.vertices.len(), 40);
    assert_eq!(draws(&commands)[0].batch.indices[6..12], [4, 5, 6, 4, 6, 7]);
}

#[test]
fn a_draw_with_another_texture_starts_a_new_draw_call() {
    let mut ctx = context();
    let tex = Texture::new(5, 32, 32);
    ctx.draw(&quad()).unwrap();
    ctx.draw(&Mesh { texture: Some(tex), ..quad() }).unwrap();
    ctx.flush();
    let commands = ctx.take_commands();
    let d = draws(&commands);
    assert_eq!(d.len(), 2);
    assert_eq!(d[0].batch.state.texture, BLANK);
    assert_eq!(d[1].batch.state.texture, tex);
}

#[test]
fn append_refuses_what_the_mesh_refuses() {
    let mut ctx = Gfx::with_capacity(640, 480, dpi(1.0), false, DEFAULT, BLANK, 4, 6).unwrap();
    ctx.take_commands();
    let v = vertex(0.0, 0.0);
    assert_eq!(ctx.append(Primitive::Triangle, &[v; 5], &[0], None), Err(Error::MeshTooLarge));
    assert_eq!(ctx.append(Primitive::Triangle, &[v; 3], &[0, 1, 3], None), Err(Error::IndexOutOfRange));
    let big = Mesh { prim: Primitive::Point, vertices: vec![v; 5], indices: vec![], texture: None };
    assert_eq!(ctx.draw(&big), Err(Error::MeshTooLarge));
    ctx.flush();
    assert!(ctx.take_commands().is_empty());
}

#[test]
fn clear_flushes_first() {
    let mut ctx = context();
    ctx.draw(&quad()).unwrap();
    ctx.clear();
    let commands = ctx.take_commands();
    assert_eq!(commands.len(), 4);
    assert!(matches!(commands[0], GpuCommand::Draw(_)));
    assert_eq!(
        commands[1..],
        [
            GpuCommand::Clear(Surface::Color),
            GpuCommand::Clear(Surface::Depth),
            GpuCommand::Clear(Surface::Stencil)
        ]
    );
}

#[test]
fn clear_ex_clears_one_surface() {
    let mut ctx = context();
    ctx.draw(&quad()).unwrap();
    ctx.clear_ex(Surface::Depth);
    let commands = ctx.take_commands();
    assert_eq!(commands.len(), 2);
    assert!(matches!(commands[0], GpuCommand::Draw(_)));
    assert_eq!(commands[1], GpuCommand::Clear(Surface::Depth));
}

#[test]
fn push_t_composes_and_restores() {
    let mut ctx = context();
    let a = translate(10.0, 0.0);
    let b = translate(0.0, 5.0);
    let before = scope(&ctx);
    let r = ctx.push_t(a, |ctx| {
        assert_eq!(*ctx.transform(), vec![a]);
        ctx.push_t(b, |ctx| {
            assert_eq!(*ctx.transform(), vec![a, b]);
            ctx.draw(&quad())
        })?;
        assert_eq!(*ctx.transform(), vec![a]);
        Ok(())
    });
    assert_eq!(r, Ok(()));
    assert_eq!(scope(&ctx), before);
    // The inner scope flushed what its body staged.
    assert_eq!(draws(&ctx.take_commands()).len(), 1);
}

#[test]
fn push_t_restores_when_the_body_fails() {
    let mut ctx = context();
    let before = scope(&ctx);
    let r = ctx.push_t(translate(1.0, 1.0), |ctx| {
        ctx.draw(&quad())?;
        Err(Error::Failed("no".to_string()))
    });
    assert_eq!(r, Err(Error::Failed("no".to_string())));
    assert_eq!(scope(&ctx), before);
    assert_eq!(draws(&ctx.take_commands()).len(), 1);
}

#[test]
fn reset_t_runs_with_the_identity_and_restores() {
    let mut ctx = context();
    let a = translate(10.0, 0.0);
    let r = ctx.push_t(a, |ctx| {
        let before = scope(ctx);
        ctx.reset_t(|ctx| {
            assert!(ctx.transform().is_empty());
            Ok(())
        })?;
        assert_eq!(scope(ctx), before);
        let failed = ctx.reset_t(|_| Err(Error::Failed("no".to_string())));
        assert_eq!(failed, Err(Error::Failed("no".to_string())));
        assert_eq!(scope(ctx), before);
        Ok(())
    });
    assert_eq!(r, Ok(()));
}

#[test]
fn draw_t_draws_under_the_transform() {
    struct Probe(Mat4);
    impl Drawable for Probe {
        fn draw(&self, ctx: &mut Gfx) -> Result<(), Error> {
            assert_eq!(*ctx.transform(), vec![self.0]);
            ctx.draw(&quad())
        }
    }
    let mut ctx = context();
    let t = translate(3.0, 4.0);
    assert_eq!(ctx.draw_t(t, &Probe(t)), Ok(()));
    assert!(ctx.transform().is_empty());
    assert_eq!(draws(&ctx.take_commands()).len(), 1);
}

#[test]
fn use_cam_swaps_the_camera_and_restores() {
    let mut ctx = context();
    let cam = Camera::Fixed { view: translate(1.0, 2.0), proj: translate(3.0, 4.0) };
    let before = scope(&ctx);
    let r = ctx.use_cam(&cam, |ctx| {
        assert_eq!(ctx.camera(), cam);
        ctx.draw(&quad())
    });
    assert_eq!(r, Ok(()));
    assert_eq!(scope(&ctx), before);
    let commands = ctx.take_commands();
    let d = draws(&commands);
    assert_eq!(d.len(), 1);
    assert_eq!(d[0].camera, cam);

    let failed = ctx.use_cam(&cam, |_| Err(Error::Failed("no".to_string())));
    assert_eq!(failed, Err(Error::Failed("no".to_string())));
    assert_eq!(scope(&ctx), before);
}

#[test]
fn use_default_cam_uses_the_camera_over_the_window() {
    let mut ctx = context();
    let cam = Camera::Fixed { view: translate(1.0, 2.0), proj: translate(3.0, 4.0) };
    let r = ctx.use_cam(&cam, |ctx| {
        ctx.use_default_cam(|ctx| {
            assert_eq!(ctx.camera(), Camera::Ortho(OrthoCam::sized(640, 480)));
            Ok(())
        })?;
        assert_eq!(ctx.camera(), cam);
        Ok(())
    });
    assert_eq!(r, Ok(()));
    assert_eq!(ctx.default_cam(), OrthoCam { width: 640, height: 480, near: -4096, far: 4096 });
}

#[test]
fn use_blend_draws_its_body_in_the_mode_and_restores() {
    let mut ctx = context();
    let before = scope(&ctx);
    let r = ctx.use_blend(Blend::Add, |ctx| {
        assert_eq!(ctx.blend(), Blend::Add);
        ctx.draw(&quad())
    });
    assert_eq!(r, Ok(()));
    assert_eq!(ctx.blend(), Blend::Alpha);
    assert_eq!(scope(&ctx), before);
    let commands = ctx.take_commands();
    assert_eq!(commands.len(), 3);
    assert_eq!(commands[0], GpuCommand::BlendFunc(BlendFac::SrcAlpha, BlendFac::DestAlpha));
    assert_eq!(commands[2], GpuCommand::BlendFunc(BlendFac::SrcAlpha, BlendFac::OneMinusSrcAlpha));
    let d = draws(&commands);
    assert_eq!(d.len(), 1);
    assert_eq!(d[0].batch.state.blend, Blend::Add);
    assert_eq!(Blend::Add.to_gl(), (BlendFac::SrcAlpha, BlendFac::DestAlpha));
}

#[test]
fn use_blend_does_not_touch_what_was_staged_before() {
    let mut ctx = context();
    ctx.draw(&quad()).unwrap();
    ctx.use_blend(Blend::Replace, |ctx| ctx.draw(&quad())).unwrap();
    let commands = ctx.take_commands();
    assert_eq!(commands.len(), 4);
    assert!(matches!(&commands[0], GpuCommand::Draw(d) if d.batch.state.blend == Blend::Alpha));
    assert_eq!(commands[1], GpuCommand::BlendFunc(BlendFac::SrcAlpha, BlendFac::Zero));
    assert!(matches!(&commands[2], GpuCommand::Draw(d) if d.batch.state.blend == Blend::Replace));
    assert_eq!(commands[3], GpuCommand::BlendFunc(BlendFac::SrcAlpha, BlendFac::OneMinusSrcAlpha));
}

#[test]
fn use_blend_nested_goes_back_to_the_outer_mode() {
    let mut ctx = context();
    let r = ctx.use_blend(Blend::Add, |ctx| {
        ctx.use_blend(Blend::Replace, |ctx| {
            assert_eq!(ctx.blend(), Blend::Replace);
            Ok(())
        })?;
        assert_eq!(ctx.blend(), Blend::Add);
        Ok(())
    });
    assert_eq!(r, Ok(()));
    assert_eq!(ctx.blend(), Blend::Alpha);
    assert_eq!(
        ctx.take_commands(),
        vec![
            GpuCommand::BlendFunc(BlendFac::SrcAlpha, BlendFac::DestAlpha),
            GpuCommand::BlendFunc(BlendFac::SrcAlpha, BlendFac::Zero),
            GpuCommand::BlendFunc(BlendFac::SrcAlpha, BlendFac::DestAlpha),
            GpuCommand::BlendFunc(BlendFac::SrcAlpha, BlendFac::OneMinusSrcAlpha),
        ]
    );
}

#[test]
fn use_blend_restores_when_the_body_fails() {
    let mut ctx = context();
    let before = scope(&ctx);
    let r = ctx.use_blend(Blend::Add, |_| Err(Error::Failed("no".to_string())));
    assert_eq!(r, Err(Error::Failed("no".to_string())));
    assert_eq!(scope(&ctx), before);
    assert_eq!(ctx.take_commands().len(), 2);
}

#[test]
fn draw_on_binds_the_canvas_and_restores() {
    let mut ctx = context();
    let canvas = Canvas::new(7, Texture::new(8, 320, 200));
    assert_eq!((canvas.width(), canvas.height()), (320, 200));
    let t = translate(5.0, 5.0);
    let r = ctx.push_t(t, |ctx| {
        let before = scope(ctx);
        ctx.draw(&quad())?;
        ctx.draw_on(&canvas, |ctx| {
            assert_eq!(ctx.canvas(), Some(canvas));
            assert!(ctx.transform().is_empty());
            assert_eq!(ctx.camera(), Camera::Ortho(OrthoCam::sized(320, 200)));
            ctx.draw(&quad())
        })?;
        assert_eq!(scope(ctx), before);
        Ok(())
    });
    assert_eq!(r, Ok(()));
    let commands = ctx.take_commands();
    assert_eq!(commands.len(), 6);
    assert!(matches!(&commands[0], GpuCommand::Draw(d) if d.camera == Camera::Ortho(OrthoCam::sized(640, 480))));
    assert_eq!(commands[1], GpuCommand::Viewport { width: 320, height: 200, dpi: dpi(2.0) });
    assert_eq!(commands[2], GpuCommand::BindCanvas(canvas));
    assert!(matches!(&commands[3], GpuCommand::Draw(d) if d.camera == Camera::Ortho(OrthoCam::sized(320, 200))));
    assert_eq!(commands[4], GpuCommand::UnbindCanvas(canvas));
    assert_eq!(commands[5], GpuCommand::Viewport { width: 640, height: 480, dpi: dpi(2.0) });
}

#[test]
fn draw_on_inside_draw_on_is_refused() {
    let mut ctx = context();
    let outer = Canvas::new(7, Texture::new(8, 320, 200));
    let inner = Canvas::new(9, Texture::new(10, 64, 64));
    let r = ctx.draw_on(&outer, |ctx| {
        ctx.draw(&quad())?;
        ctx.take_commands();
        let before = scope(ctx);
        let mut ran = false;
        let nested = ctx.draw_on(&inner, |_| {
            ran = true;
            Ok(())
        });
        assert_eq!(nested, Err(Error::CanvasNesting));
        assert!(!ran);
        assert_eq!(ctx.canvas(), Some(outer));
        assert_eq!(scope(ctx), before);
        // Not even a flush: what was staged is still staged.
        assert!(ctx.take_commands().is_empty());
        nested
    });
    assert_eq!(r, Err(Error::CanvasNesting));
    assert_eq!(ctx.canvas(), None);
    let commands = ctx.take_commands();
    assert_eq!(commands.len(), 3);
    assert!(matches!(commands[0], GpuCommand::Draw(_)));
    assert_eq!(commands[1], GpuCommand::UnbindCanvas(outer));
}

#[test]
fn draw_on_restores_when_the_body_fails() {
    let mut ctx = context();
    let canvas = Canvas::new(7, Texture::new(8, 320, 200));
    let before = scope(&ctx);
    let r = ctx.draw_on(&canvas, |_| Err(Error::Failed("no".to_string())));
    assert_eq!(r, Err(Error::Failed("no".to_string())));
    assert_eq!(scope(&ctx), before);
    assert_eq!(
        ctx.take_commands(),
        vec![
            GpuCommand::Viewport { width: 320, height: 200, dpi: dpi(2.0) },
            GpuCommand::BindCanvas(canvas),
            GpuCommand::UnbindCanvas(canvas),
            GpuCommand::Viewport { width: 640, height: 480, dpi: dpi(2.0) },
        ]
    );
}

#[test]
fn draw_with_installs_shader_and_uniforms_and_restores() {
    let mut ctx = context();
    let shader = Pipeline { program: 2 };
    let uniforms = vec![
        Uniform { name: "u_time", value: UniformValue::F1(1.5f32.to_bits()) },
        Uniform { name: "u_tint", value: UniformValue::F4([ONE; 4]) },
    ];
    let before = scope(&ctx);
    ctx.draw(&quad()).unwrap();
    let r = ctx.draw_with(&shader, uniforms.clone(), |ctx| {
        assert_eq!(ctx.pipeline(), shader);
        assert_eq!(*ctx.uniforms(), Some(uniforms.clone()));
        ctx.draw(&quad())
    });
    assert_eq!(r, Ok(()));
    assert_eq!(scope(&ctx), before);
    let commands = ctx.take_commands();
    let d = draws(&commands);
    assert_eq!(d.len(), 2);
    assert_eq!(d[0].batch.state.pipeline, DEFAULT);
    assert_eq!(d[0].uniforms, None);
    assert_eq!(d[1].batch.state.pipeline, shader);
    assert_eq!(d[1].uniforms, Some(uniforms.clone()));

    let failed = ctx.draw_with(&shader, uniforms, |_| Err(Error::Failed("no".to_string())));
    assert_eq!(failed, Err(Error::Failed("no".to_string())));
    assert_eq!(scope(&ctx), before);
}

#[test]
fn draw_with_nested_goes_back_to_the_outer_shader() {
    let mut ctx = context();
    let a = Pipeline { program: 2 };
    let b = Pipeline { program: 3 };
    let ua = vec![Uniform { name: "a", value: UniformValue::F1(0) }];
    let ub = vec![Uniform { name: "b", value: UniformValue::F2([1, 2]) }];
    let r = ctx.draw_with(&a, ua.clone(), |ctx| {
        ctx.draw_with(&b, ub.clone(), |ctx| {
            assert_eq!(ctx.pipeline(), b);
            Ok(())
        })?;
        assert_eq!(ctx.pipeline(), a);
        assert_eq!(*ctx.uniforms(), Some(ua.clone()));
        Ok(())
    });
    assert_eq!(r, Ok(()));
    assert_eq!(ctx.pipeline(), DEFAULT);
    assert_eq!(*ctx.uniforms(), None);
}

#[test]
fn draw_masked_runs_neither_body() {
    let mut ctx = context();
    ctx.draw(&quad()).unwrap();
    let r = ctx.draw_masked(|_| Err(Error::Failed("mask".to_string())), |_| Err(Error::Failed("draw".to_string())));
    assert_eq!(r, Ok(()));
    assert!(ctx.take_commands().is_empty());
}

#[test]
fn a_frame_reports_one_draw_call_for_each_run_of_states() {
    let mut ctx = context();
    let textures = [None, Some(Texture::new(5, 8, 8)), None, None, Some(Texture::new(6, 8, 8))];
    ctx.begin_frame();
    for t in textures {
        for _ in 0..3 {
            ctx.draw(&Mesh { texture: t, ..quad() }).unwrap();
        }
    }
    ctx.end_frame();
    // The count shows once the next frame begins.
    assert_eq!(ctx.draw_calls(), 0);
    ctx.begin_frame();
    assert_eq!(ctx.draw_calls(), 4);
    ctx.end_frame();
    ctx.begin_frame();
    assert_eq!(ctx.draw_calls(), 0);
    let commands = ctx.take_commands();
    assert_eq!(draws(&commands).len(), 4);
}

#[test]
fn begin_frame_clears_and_end_frame_flushes() {
    let mut ctx = context();
    ctx.begin_frame();
    assert_eq!(
        ctx.take_commands(),
        vec![
            GpuCommand::Clear(Surface::Color),
            GpuCommand::Clear(Surface::Depth),
            GpuCommand::Clear(Surface::Stencil)
        ]
    );
    ctx.draw(&quad()).unwrap();
    ctx.end_frame();
    let commands = ctx.take_commands();
    assert_eq!(commands.len(), 1);
    assert!(matches!(commands[0], GpuCommand::Draw(_)));
    assert!(ctx.transform().is_empty());
}

#[test]
fn resize_puts_the_camera_over_the_new_size() {
    let mut ctx = context();
    ctx.resize(800, 600);
    assert_eq!((ctx.width(), ctx.height()), (800, 600));
    assert_eq!(ctx.camera(), Camera::Ortho(OrthoCam { width: 800, height: 600, near: -4096, far: 4096 }));
    ctx.set_dpi(dpi(1.0));
    assert_eq!(ctx.dpi(), dpi(1.0));
    let cam = Camera::Fixed { view: translate(0.0, 0.0), proj: translate(0.0, 0.0) };
    ctx.apply_cam(&cam);
    assert_eq!(ctx.camera(), cam);
    assert!(ctx.take_commands().is_empty());
}

#[test]
fn errors_read_as_one_line() {
    assert_eq!(Error::CanvasNesting.to_string(), "cannot use canvas inside a canvas");
    assert_eq!(Error::MeshTooLarge.to_string(), "mesh too large for the draw buffers");
    assert_eq!(Error::IndexOutOfRange.to_string(), "index points past the vertices");
    assert_eq!(Error::CapacityTooLarge.to_string(), "draw buffers too large to index");
    assert_eq!(Error::Failed("no sprite".to_string()).to_string(), "no sprite");
}
