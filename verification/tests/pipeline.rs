use dirty::gfx::Pipeline;
use dirty::gfx::ShaderError;
use dirty::gfx::ShaderStage;
use dirty::gfx::pipeline::AttrBinding;
use dirty::gfx::pipeline::BuildNext;
use dirty::gfx::pipeline::StageOutcome;
use dirty::gfx::pipeline::VertexAttr;
use dirty::gfx::pipeline::after;
use dirty::gfx::pipeline::attribute_bindings;
use dirty::gfx::pipeline::first_stage;
use dirty::gfx::pipeline::step;

fn ok() -> StageOutcome {
    StageOutcome { ok: true, log: String::new() }
}

fn failed(log: &str) -> StageOutcome {
    StageOutcome { ok: false, log: log.to_string() }
}

#[test]
fn a_build_goes_from_vertex_to_fragment_to_link() {
    assert_eq!(first_stage(), ShaderStage::Vertex);
    assert_eq!(after(ShaderStage::Vertex, 3, &ok()), BuildNext::Continue(ShaderStage::Fragment));
    assert_eq!(after(ShaderStage::Fragment, 3, &ok()), BuildNext::Continue(ShaderStage::Link));
    assert_eq!(after(ShaderStage::Link, 3, &ok()), BuildNext::Ready(Pipeline { program: 3 }));
}

#[test]
fn a_failed_step_ends_the_build_with_its_trimmed_log() {
    for stage in [ShaderStage::Vertex, ShaderStage::Fragment, ShaderStage::Link] {
        assert_eq!(
            after(stage, 3, &failed("  \n0:12: syntax error \t\r\n")),
            BuildNext::Failed(ShaderError { stage, message: "0:12: syntax error".to_string() })
        );
    }
}

#[test]
fn a_log_of_a_step_that_succeeded_is_ignored() {
    let noisy = StageOutcome { ok: true, log: "warning: unused".to_string() };
    assert_eq!(after(ShaderStage::Vertex, 3, &noisy), BuildNext::Continue(ShaderStage::Fragment));
    assert_eq!(Pipeline::new(3, &noisy, &noisy, &noisy), Ok(Pipeline { program: 3 }));
}

#[test]
fn a_pipeline_is_made_when_every_step_succeeded() {
    assert_eq!(Pipeline::new(12, &ok(), &ok(), &ok()), Ok(Pipeline { program: 12 }));
}

#[test]
fn the_first_failed_step_is_the_error() {
    let v = failed(" bad vertex ");
    let f = failed(" bad fragment ");
    let l = failed(" bad link ");
    assert_eq!(
        Pipeline::new(1, &v, &f, &l),
        Err(ShaderError { stage: ShaderStage::Vertex, message: "bad vertex".to_string() })
    );
    assert_eq!(
        Pipeline::new(1, &ok(), &f, &l),
        Err(ShaderError { stage: ShaderStage::Fragment, message: "bad fragment".to_string() })
    );
    assert_eq!(
        Pipeline::new(1, &ok(), &ok(), &l),
        Err(ShaderError { stage: ShaderStage::Link, message: "bad link".to_string() })
    );
    assert_eq!(
        Pipeline::new(1, &v, &ok(), &ok()),
        Err(ShaderError { stage: ShaderStage::Vertex, message: "bad vertex".to_string() })
    );
}

#[test]
fn an_error_reads_as_the_step_and_the_message() {
    let message = "0:1: oops".to_string();
    let e = ShaderError { stage: ShaderStage::Vertex, message: message.clone() };
    assert_eq!(e.to_string(), "vert error: 0:1: oops");
    let e = ShaderError { stage: ShaderStage::Fragment, message: message.clone() };
    assert_eq!(e.to_string(), "frag error: 0:1: oops");
    let e = ShaderError { stage: ShaderStage::Link, message };
    assert_eq!(e.to_string(), "glsl error: 0:1: oops");
}

#[test]
fn pipelines_are_equal_exactly_when_their_programs_are() {
    assert_eq!(Pipeline { program: 4 }, Pipeline { program: 4 });
    assert_ne!(Pipeline { program: 4 }, Pipeline { program: 5 });
}

#[test]
fn attributes_are_bound_to_the_slots_of_their_positions() {
    let layout = [
        VertexAttr { name: "a_pos", size: 3 },
        VertexAttr { name: "a_normal", size: 3 },
        VertexAttr { name: "a_uv", size: 2 },
        VertexAttr { name: "a_color", size: 4 },
    ];
    assert_eq!(
        attribute_bindings(&layout),
        vec![
            AttrBinding { slot: 0, name: "a_pos" },
            AttrBinding { slot: 1, name: "a_normal" },
            AttrBinding { slot: 2, name: "a_uv" },
            AttrBinding { slot: 3, name: "a_color" },
        ]
    );
    assert!(attribute_bindings(&[]).is_empty());
}

#[test]
fn a_step_is_decided_by_its_success_and_its_message() {
    assert_eq!(step(ShaderStage::Vertex, 2, true, "ignored".to_string()), BuildNext::Continue(ShaderStage::Fragment));
    assert_eq!(step(ShaderStage::Link, 2, true, String::new()), BuildNext::Ready(Pipeline { program: 2 }));
    assert_eq!(
        step(ShaderStage::Fragment, 2, false, " kept as given ".to_string()),
        BuildNext::Failed(ShaderError { stage: ShaderStage::Fragment, message: " kept as given ".to_string() })
    );
}
