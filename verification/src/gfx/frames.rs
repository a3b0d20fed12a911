//! What holds of the context over a whole frame.

use vstd::prelude::*;
use super::mesh::Vertex;
use super::command::GpuCommandView;
use super::renderer::Geometry;
use super::renderer::SubmissionView;
use super::runs::accepts_all;
use super::runs::all_stage;
use super::runs::emitted;
use super::runs::lemma_one_submission_per_run;
use super::runs::run;
use super::runs::runs_fit;
use super::runs::state_runs;
use super::runs::submitted;
use super::GfxView;

verus! {

/// The context after `draws` were appended to `g`, first to last.
pub open spec fn drawn(g: GfxView, draws: Seq<Geometry<Vertex>>) -> GfxView
    decreases draws.len(),
{
    if draws.len() == 0 {
        g
    } else {
        drawn(g, draws.drop_last()).appended(draws.last())
    }
}

/// Appending to the context appends to its mesh and leaves both counts of
/// draw calls alone.
pub proof fn lemma_drawn_appends(g: GfxView, draws: Seq<Geometry<Vertex>>)
    ensures
        drawn(g, draws).renderer == run(g.renderer, draws),
        drawn(g, draws).draw_calls == g.draw_calls,
        drawn(g, draws).draw_calls_last == g.draw_calls_last,
    decreases draws.len(),
{
    if draws.len() > 0 {
        lemma_drawn_appends(g, draws.drop_last());
    }
}

/// The draw calls that submit `subs`, one after the other, with the camera
/// and the custom uniforms of `g`.
pub open spec fn draw_commands(g: GfxView, subs: Seq<SubmissionView<Vertex>>) -> Seq<
    GpuCommandView,
> {
    subs.map_values(|s: SubmissionView<Vertex>| g.draw_command(s))
}

/// Appending to the context changes nothing that a scoped operation may
/// override, and records one draw call for each submission that the mesh
/// hands out, in order.
pub proof fn lemma_drawn_records(g: GfxView, draws: Seq<Geometry<Vertex>>)
    ensures
        drawn(g, draws).same_scope(g),
        drawn(g, draws).commands == g.commands + draw_commands(g, emitted(g.renderer, draws)),
    decreases draws.len(),
{
    if draws.len() > 0 {
        let head = draws.drop_last();
        lemma_drawn_records(g, head);
        lemma_drawn_appends(g, head);
        let before = drawn(g, head);
        assert(before.draw_command(run(g.renderer, head).submission()) == g.draw_command(
            run(g.renderer, head).submission(),
        ));
        assert(drawn(g, draws).commands =~= g.commands + draw_commands(
            g,
            emitted(g.renderer, draws),
        ));
    } else {
        assert(g.commands =~= g.commands + draw_commands(g, emitted(g.renderer, draws)));
    }
}

/// What the context records is what the mesh submits: after any draws and a
/// flush, the record has grown by one draw call for each submission of the
/// run, the flush's own included, in order.
pub proof fn lemma_records_what_is_submitted(g: GfxView, draws: Seq<Geometry<Vertex>>)
    ensures
        drawn(g, draws).flushed().commands == g.commands + draw_commands(
            g,
            submitted(g.renderer, draws),
        ),
{
    lemma_drawn_records(g, draws);
    lemma_drawn_appends(g, draws);
    let d = drawn(g, draws);
    assert(d.draw_command(d.renderer.submission()) == g.draw_command(d.renderer.submission()));
    assert(d.flushed().commands =~= g.commands + draw_commands(g, submitted(g.renderer, draws)));
}

/// A frame counts its runs: take a context between frames, with nothing
/// staged and nothing counted by its mesh, as a new context and one that has
/// ended a frame are. Begin a frame, append `draws`, of which every one has a
/// vertex and every run fits the buffers as one batch, and end the frame.
/// Then the frame that begins next reports as many draw calls as `draws` have
/// runs.
pub proof fn lemma_frame_counts_runs(g: GfxView, draws: Seq<Geometry<Vertex>>)
    requires
        g.wf(),
        g.idle(),
        accepts_all(g.renderer, draws),
        all_stage(draws),
        runs_fit(g.renderer, draws),
        state_runs(draws) <= usize::MAX,
    ensures
        drawn(g.began_frame(), draws).ended_frame().draw_calls == state_runs(draws),
        drawn(g.began_frame(), draws).ended_frame().idle(),
        drawn(g.began_frame(), draws).ended_frame().began_frame().draw_calls_last == state_runs(
            draws,
        ),
{
    let start = g.began_frame();
    assert(start.renderer == g.renderer);
    lemma_drawn_appends(start, draws);
    lemma_one_submission_per_run(g.renderer, draws);
}

} // verus!
