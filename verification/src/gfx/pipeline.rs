//! Shader programs: their identity, and how one is built from two stages.
//!
//! The GPU compiles and links. This module decides: which step comes next,
//! when the build has failed and with which error, and which slot each vertex
//! attribute is bound to before linking.

use vstd::prelude::*;

verus! {

/// A linked shader program. Two pipelines are the same pipeline exactly when
/// they name the same program on the GPU.
#[derive(Clone, Copy, Debug, PartialEq, Eq, Structural)]
pub struct Pipeline {
    pub program: u32,
}

/// A step of building a pipeline.
#[derive(Clone, Copy, Debug, PartialEq, Eq, Structural)]
pub enum ShaderStage {
    Vertex,
    Fragment,
    Link,
}

/// A failed build: the step that failed, and what the GPU's compiler said of
/// it, without the white space around it.
#[derive(Clone, Debug, PartialEq, Eq)]
pub struct ShaderError {
    pub stage: ShaderStage,
    pub message: String,
}

/// What a [`ShaderError`] holds.
pub struct ShaderErrorView {
    pub stage: ShaderStage,
    pub message: Seq<char>,
}

impl View for ShaderError {
    type V = ShaderErrorView;

    open spec fn view(&self) -> ShaderErrorView {
        ShaderErrorView { stage: self.stage, message: self.message@ }
    }
}

/// What the GPU reports of one step: whether it succeeded, and its log.
#[derive(Clone, Debug, PartialEq, Eq)]
pub struct StageOutcome {
    pub ok: bool,
    pub log: String,
}

/// What follows a step of the build.
#[derive(Clone, Debug, PartialEq, Eq)]
pub enum BuildNext {
    /// The GPU is to perform this step next.
    Continue(ShaderStage),
    /// The program is linked: the build is over.
    Ready(Pipeline),
    /// The build is over, and failed.
    Failed(ShaderError),
}

/// What a [`BuildNext`] holds.
pub enum BuildNextView {
    Continue(ShaderStage),
    Ready(Pipeline),
    Failed(ShaderErrorView),
}

impl View for BuildNext {
    type V = BuildNextView;

    open spec fn view(&self) -> BuildNextView {
        match *self {
            BuildNext::Continue(s) => BuildNextView::Continue(s),
            BuildNext::Ready(p) => BuildNextView::Ready(p),
            BuildNext::Failed(e) => BuildNextView::Failed(e@),
        }
    }
}

/// `s` without its leading and trailing white space, as `str::trim` of the
/// standard library returns it.
pub uninterp spec fn trimmed(s: Seq<char>) -> Seq<char>;

/// `str::trim` of the standard library, as an owned string. The contract
/// names the result and claims nothing else of it.
#[verifier::external_body]
fn trim(s: &str) -> (r: String)
    ensures
        r@ == trimmed(s@),
{
    s.trim().to_string()
}

/// What follows the step `stage` of the build of `program`, given whether it
/// succeeded and what there is to say of it: a failed step ends the build
/// with the step and the message; a compiled vertex stage is followed by the
/// fragment stage, a compiled fragment stage by linking, and a linked program
/// is ready.
pub open spec fn spec_after(stage: ShaderStage, program: u32, ok: bool, message: Seq<char>)
    -> BuildNextView {
    if !ok {
        BuildNextView::Failed(ShaderErrorView { stage, message })
    } else {
        match stage {
            ShaderStage::Vertex => BuildNextView::Continue(ShaderStage::Fragment),
            ShaderStage::Fragment => BuildNextView::Continue(ShaderStage::Link),
            ShaderStage::Link => BuildNextView::Ready(Pipeline { program }),
        }
    }
}

/// How the build ends, given what the GPU reported of each step. A step is
/// only looked at where the steps before it succeeded.
pub open spec fn spec_built(
    program: u32,
    vert: StageOutcome,
    frag: StageOutcome,
    link: StageOutcome,
) -> Result<Pipeline, ShaderErrorView> {
    if !vert.ok {
        Err(ShaderErrorView { stage: ShaderStage::Vertex, message: trimmed(vert.log@) })
    } else if !frag.ok {
        Err(ShaderErrorView { stage: ShaderStage::Fragment, message: trimmed(frag.log@) })
    } else if !link.ok {
        Err(ShaderErrorView { stage: ShaderStage::Link, message: trimmed(link.log@) })
    } else {
        Ok(Pipeline { program })
    }
}

/// The first step of every build.
pub fn first_stage() -> (s: ShaderStage)
    ensures
        s == ShaderStage::Vertex,
{
    ShaderStage::Vertex
}

/// What follows the step `stage` of the build of `program`, which succeeded
/// or not, and of which `message` is to be said if it failed.
pub fn step(stage: ShaderStage, program: u32, ok: bool, message: String) -> (next: BuildNext)
    ensures
        next@ == spec_after(stage, program, ok, message@),
{
    if !ok {
        return BuildNext::Failed(ShaderError { stage, message });
    }
    match stage {
        ShaderStage::Vertex => BuildNext::Continue(ShaderStage::Fragment),
        ShaderStage::Fragment => BuildNext::Continue(ShaderStage::Link),
        ShaderStage::Link => BuildNext::Ready(Pipeline { program }),
    }
}

/// What follows the step `stage` of the build of `program`, of which the GPU
/// reported `outcome`: as [`step`] says, with the trimmed log as the message.
pub fn after(stage: ShaderStage, program: u32, outcome: &StageOutcome) -> (next: BuildNext)
    ensures
        next@ == spec_after(stage, program, outcome.ok, trimmed(outcome.log@)),
{
    let message = if outcome.ok {
        String::new()
    } else {
        trim(outcome.log.as_str())
    };
    step(stage, program, outcome.ok, message)
}

impl Pipeline {
    /// The pipeline of `program`, where the GPU compiled both stages and
    /// linked them; else the error of the first step that failed.
    pub fn new(program: u32, vert: &StageOutcome, frag: &StageOutcome, link: &StageOutcome) -> (r:
        Result<Pipeline, ShaderError>)
        ensures
            match r {
                Ok(p) => spec_built(program, *vert, *frag, *link) == Ok::<Pipeline, ShaderErrorView>(
                    p,
                ),
                Err(e) => spec_built(program, *vert, *frag, *link) == Err::<
                    Pipeline,
                    ShaderErrorView,
                >(e@),
            },
    {
        match after(ShaderStage::Vertex, program, vert) {
            BuildNext::Failed(e) => { return Err(e); },
            _ => {},
        }
        match after(ShaderStage::Fragment, program, frag) {
            BuildNext::Failed(e) => { return Err(e); },
            _ => {},
        }
        match after(ShaderStage::Link, program, link) {
            BuildNext::Failed(e) => Err(e),
            BuildNext::Ready(p) => Ok(p),
            BuildNext::Continue(_) => Ok(Pipeline { program }),
        }
    }
}

impl ShaderError {
    /// What the message of an error of `stage` begins with.
    pub open spec fn prefix(stage: ShaderStage) -> Seq<char> {
        match stage {
            ShaderStage::Vertex => "vert error: "@,
            ShaderStage::Fragment => "frag error: "@,
            ShaderStage::Link => "glsl error: "@,
        }
    }

    /// The error as one line: the step that failed, then the compiler's
    /// message.
    pub fn to_string(&self) -> (s: String)
        ensures
            s@ == Self::prefix(self.stage) + self.message@,
    {
        let head = match self.stage {
            ShaderStage::Vertex => "vert error: ",
            ShaderStage::Fragment => "frag error: ",
            ShaderStage::Link => "glsl error: ",
        };
        String::from_str(head).concat(self.message.as_str())
    }
}

/// A vertex attribute: its name in the shader, and how many components it
/// has.
#[derive(Clone, Copy, Debug, PartialEq, Eq)]
pub struct VertexAttr {
    pub name: &'static str,
    pub size: u8,
}

/// A vertex attribute bound to the slot that the vertex buffer feeds.
#[derive(Clone, Copy, Debug, PartialEq, Eq)]
pub struct AttrBinding {
    pub slot: u32,
    pub name: &'static str,
}

/// The bindings to make before linking: each attribute of `attrs` to the slot
/// of its position in the layout, so that shader inputs and buffer layout
/// agree.
pub fn attribute_bindings(attrs: &[VertexAttr]) -> (r: Vec<AttrBinding>)
    requires
        attrs@.len() <= u32::MAX,
    ensures
        r@.len() == attrs@.len(),
        forall|i: int|
            0 <= i < attrs@.len() ==> (#[trigger] r@[i]) == (AttrBinding {
                slot: i as u32,
                name: attrs@[i].name,
            }),
{
    let mut r: Vec<AttrBinding> = Vec::new();
    let mut i: usize = 0;
    while i < attrs.len()
        invariant
            i <= attrs.len(),
            attrs@.len() <= u32::MAX,
            r@.len() == i,
            forall|k: int|
                0 <= k < i ==> (#[trigger] r@[k]) == (AttrBinding {
                    slot: k as u32,
                    name: attrs@[k].name,
                }),
        decreases attrs.len() - i,
    {
        r.push(AttrBinding { slot: i as u32, name: attrs[i].name });
        i = i + 1;
    }
    r
}

} // verus!
