use dirty::gfx::gltypes::BlendFac;
use dirty::gfx::gltypes::Capability;
use dirty::gfx::gltypes::CullMode;
use dirty::gfx::gltypes::DepthTest;
use dirty::gfx::gltypes::Face;
use dirty::gfx::Blend;
use dirty::gfx::Flip;
use dirty::gfx::Origin;
use dirty::gfx::Primitive;
use dirty::gfx::Surface;

#[test]
fn surfaces_have_the_codes_of_their_buffer_bits() {
    assert_eq!(Surface::Color.to_gl(), glow::COLOR_BUFFER_BIT);
    assert_eq!(Surface::Depth.to_gl(), glow::DEPTH_BUFFER_BIT);
    assert_eq!(Surface::Stencil.to_gl(), glow::STENCIL_BUFFER_BIT);
    assert_eq!(Surface::Color.to_gl(), 0x4000);
}

#[test]
fn primitives_have_the_codes_of_their_draw_modes() {
    assert_eq!(Primitive::Point.to_gl(), glow::POINTS);
    assert_eq!(Primitive::Line.to_gl(), glow::LINES);
    assert_eq!(Primitive::LineLoop.to_gl(), glow::LINE_LOOP);
    assert_eq!(Primitive::LineStrip.to_gl(), glow::LINE_STRIP);
    assert_eq!(Primitive::Triangle.to_gl(), glow::TRIANGLES);
    assert_eq!(Primitive::TriangleStrip.to_gl(), glow::TRIANGLE_STRIP);
    assert_eq!(Primitive::TriangleFan.to_gl(), glow::TRIANGLE_FAN);
    assert_eq!(Primitive::Triangle.to_gl(), 4);
}

#[test]
fn blend_factors_have_their_codes() {
    assert_eq!(BlendFac::Zero.to_gl(), glow::ZERO);
    assert_eq!(BlendFac::One.to_gl(), glow::ONE);
    assert_eq!(BlendFac::SrcColor.to_gl(), glow::SRC_COLOR);
    assert_eq!(BlendFac::OneMinusSrcColor.to_gl(), glow::ONE_MINUS_SRC_COLOR);
    assert_eq!(BlendFac::SrcAlpha.to_gl(), glow::SRC_ALPHA);
    assert_eq!(BlendFac::OneMinusSrcAlpha.to_gl(), glow::ONE_MINUS_SRC_ALPHA);
    assert_eq!(BlendFac::DestAlpha.to_gl(), glow::DST_ALPHA);
    assert_eq!(BlendFac::OneMinusDestAlpha.to_gl(), glow::ONE_MINUS_DST_ALPHA);
    assert_eq!(BlendFac::DestColor.to_gl(), glow::DST_COLOR);
    assert_eq!(BlendFac::OneMinusDestColor.to_gl(), glow::ONE_MINUS_DST_COLOR);
    assert_eq!(BlendFac::SrcAlphaSaturate.to_gl(), glow::SRC_ALPHA_SATURATE);
    assert_eq!(BlendFac::SrcAlpha.to_gl(), 0x0302);
}

#[test]
fn capabilities_have_their_codes() {
    assert_eq!(Capability::Blend.to_gl(), glow::BLEND);
    assert_eq!(Capability::CullFace.to_gl(), glow::CULL_FACE);
    assert_eq!(Capability::DepthTest.to_gl(), glow::DEPTH_TEST);
    assert_eq!(Capability::StencilTest.to_gl(), glow::STENCIL_TEST);
    assert_eq!(Capability::ScissorTest.to_gl(), glow::SCISSOR_TEST);
}

#[test]
fn depth_tests_have_their_codes() {
    assert_eq!(DepthTest::Never.to_gl(), glow::NEVER);
    assert_eq!(DepthTest::Less.to_gl(), glow::LESS);
    assert_eq!(DepthTest::Equal.to_gl(), glow::EQUAL);
    assert_eq!(DepthTest::LessOrEqual.to_gl(), glow::LEQUAL);
    assert_eq!(DepthTest::Greater.to_gl(), glow::GREATER);
    assert_eq!(DepthTest::NotEqual.to_gl(), glow::NOTEQUAL);
    assert_eq!(DepthTest::GreaterOrEqual.to_gl(), glow::GEQUAL);
    assert_eq!(DepthTest::Always.to_gl(), glow::ALWAYS);
}

#[test]
fn faces_and_windings_have_their_codes() {
    assert_eq!(Face::Front.to_gl(), glow::FRONT);
    assert_eq!(Face::Back.to_gl(), glow::BACK);
    assert_eq!(Face::FrontAndBack.to_gl(), glow::FRONT_AND_BACK);
    assert_eq!(CullMode::Clockwise.to_gl(), glow::CW);
    assert_eq!(CullMode::CounterClockwise.to_gl(), glow::CCW);
}

#[test]
fn blend_modes_map_to_their_factors() {
    assert_eq!(Blend::Alpha.to_gl(), (BlendFac::SrcAlpha, BlendFac::OneMinusSrcAlpha));
    assert_eq!(Blend::Add.to_gl(), (BlendFac::SrcAlpha, BlendFac::DestAlpha));
    assert_eq!(Blend::Replace.to_gl(), (BlendFac::SrcAlpha, BlendFac::Zero));
}

#[test]
fn origins_are_points_of_the_unit_square() {
    assert_eq!(Origin::TopLeft.as_pt(), (-1, 1));
    assert_eq!(Origin::Top.as_pt(), (0, 1));
    assert_eq!(Origin::TopRight.as_pt(), (1, 1));
    assert_eq!(Origin::Left.as_pt(), (-1, 0));
    assert_eq!(Origin::Center.as_pt(), (0, 0));
    assert_eq!(Origin::Right.as_pt(), (1, 0));
    assert_eq!(Origin::BottomLeft.as_pt(), (-1, -1));
    assert_eq!(Origin::Bottom.as_pt(), (0, -1));
    assert_eq!(Origin::BottomRight.as_pt(), (1, -1));
}

#[test]
fn flips_are_told_apart() {
    assert_ne!(Flip::Neither, Flip::X);
    assert_ne!(Flip::X, Flip::Y);
    assert_ne!(Flip::Y, Flip::XY);
}
