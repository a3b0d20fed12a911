//! What holds of the mesh over a whole run of appends.

use vstd::prelude::*;
use super::renderer::shifted;
use super::renderer::BatchState;
use super::renderer::BatchView;
use super::renderer::Geometry;
use super::renderer::SubmissionView;

verus! {

/// The mesh after `draws` were appended to `b`, first to last.
pub open spec fn run<V>(b: BatchView<V>, draws: Seq<Geometry<V>>) -> BatchView<V>
    decreases draws.len(),
{
    if draws.len() == 0 {
        b
    } else {
        run(b, draws.drop_last()).appended(draws.last())
    }
}

/// The submissions that the mesh handed out while `draws` were appended to
/// `b`, in the order in which it handed them out.
pub open spec fn emitted<V>(b: BatchView<V>, draws: Seq<Geometry<V>>) -> Seq<SubmissionView<V>>
    decreases draws.len(),
{
    if draws.len() == 0 {
        Seq::empty()
    } else {
        let e = emitted(b, draws.drop_last());
        match run(b, draws.drop_last()).append_emits(draws.last()) {
            Some(s) => e.push(s),
            None => e,
        }
    }
}

/// The submissions of a run that ends with a flush: those handed out while
/// `draws` were appended to `b`, then the one of the flush, if it has one.
pub open spec fn submitted<V>(b: BatchView<V>, draws: Seq<Geometry<V>>) -> Seq<SubmissionView<V>> {
    let last = run(b, draws);
    if last.pending() {
        emitted(b, draws).push(last.submission())
    } else {
        emitted(b, draws)
    }
}

/// How many vertices `draws` hold together.
pub open spec fn vertex_total<V>(draws: Seq<Geometry<V>>) -> nat
    decreases draws.len(),
{
    if draws.len() == 0 {
        0
    } else {
        vertex_total(draws.drop_last()) + draws.last().vertices.len()
    }
}

/// How many indices `draws` hold together.
pub open spec fn index_total<V>(draws: Seq<Geometry<V>>) -> nat
    decreases draws.len(),
{
    if draws.len() == 0 {
        0
    } else {
        index_total(draws.drop_last()) + draws.last().indices.len()
    }
}

/// How many vertices `subs` hold together.
pub open spec fn submitted_total<V>(subs: Seq<SubmissionView<V>>) -> nat
    decreases subs.len(),
{
    if subs.len() == 0 {
        0
    } else {
        submitted_total(subs.drop_last()) + subs.last().vertices.len()
    }
}

/// The mesh `b` can take each of `draws`.
pub open spec fn accepts_all<V>(b: BatchView<V>, draws: Seq<Geometry<V>>) -> bool {
    forall|i: int| 0 <= i < draws.len() ==> b.accepts(#[trigger] draws[i])
}

/// A well-formed mesh that appends geometry it can take stays well-formed
/// and keeps its capacities.
pub proof fn lemma_appended_wf<V>(b: BatchView<V>, g: Geometry<V>)
    requires
        b.wf(),
        b.accepts(g),
    ensures
        b.appended(g).wf(),
        b.appended(g).max_vertices == b.max_vertices,
        b.appended(g).max_indices == b.max_indices,
{
    let base = if b.splits(g) {
        b.flushed()
    } else {
        b
    };
    let a = b.appended(g);
    if base.vertices.len() == 0 && base.indices.len() > 0 {
        assert(base.indices[0] < base.vertices.len());
    }
    assert forall|k: int| 0 <= k < a.indices.len() implies (#[trigger] a.indices[k])
        < a.vertices.len() by {
        if k >= base.indices.len() {
            assert(a.indices[k] == shifted(g.indices, base.vertices.len())[k - base.indices.len()]);
            assert(g.indices[k - base.indices.len()] < g.vertices.len());
        } else {
            assert(a.indices[k] == base.indices[k]);
        }
    }
}

/// A well-formed mesh stays well-formed, and keeps its capacities, over a
/// run of appends that it can take.
pub proof fn lemma_run_wf<V>(b: BatchView<V>, draws: Seq<Geometry<V>>)
    requires
        b.wf(),
        accepts_all(b, draws),
    ensures
        run(b, draws).wf(),
        run(b, draws).max_vertices == b.max_vertices,
        run(b, draws).max_indices == b.max_indices,
    decreases draws.len(),
{
    if draws.len() > 0 {
        let head = draws.drop_last();
        assert forall|i: int| 0 <= i < head.len() implies b.accepts(#[trigger] head[i]) by {
            assert(head[i] == draws[i]);
        }
        lemma_run_wf(b, head);
        assert(b.accepts(draws[draws.len() - 1]));
        lemma_appended_wf(run(b, head), draws.last());
    }
}

/// No vertex is lost and none is made up: over any run of appends that the
/// mesh can take, the vertices of all submissions, the closing flush
/// included, are as many as were staged at the start and appended since.
pub proof fn lemma_submits_what_was_appended<V>(b: BatchView<V>, draws: Seq<Geometry<V>>)
    requires
        b.wf(),
        accepts_all(b, draws),
    ensures
        submitted_total(emitted(b, draws)) + run(b, draws).vertices.len() == b.vertices.len()
            + vertex_total(draws),
        submitted_total(submitted(b, draws)) == b.vertices.len() + vertex_total(draws),
    decreases draws.len(),
{
    if draws.len() > 0 {
        let head = draws.drop_last();
        let g = draws.last();
        assert forall|i: int| 0 <= i < head.len() implies b.accepts(#[trigger] head[i]) by {
            assert(head[i] == draws[i]);
        }
        lemma_submits_what_was_appended(b, head);
        lemma_run_wf(b, head);
        let before = run(b, head);
        if before.splits(g) {
            let e = emitted(b, head).push(before.submission());
            assert(e.drop_last() == emitted(b, head));
            assert(e.last() == before.submission());
        }
    }
    let last = run(b, draws);
    if last.pending() {
        let all = emitted(b, draws).push(last.submission());
        assert(all.drop_last() == emitted(b, draws));
        assert(all.last() == last.submission());
    }
}

/// The vertices of `draws`, one draw after the other.
pub open spec fn joined_vertices<V>(draws: Seq<Geometry<V>>) -> Seq<V>
    decreases draws.len(),
{
    if draws.len() == 0 {
        Seq::empty()
    } else {
        joined_vertices(draws.drop_last()) + draws.last().vertices
    }
}

/// The vertices of `subs`, one submission after the other.
pub open spec fn joined_submissions<V>(subs: Seq<SubmissionView<V>>) -> Seq<V>
    decreases subs.len(),
{
    if subs.len() == 0 {
        Seq::empty()
    } else {
        joined_submissions(subs.drop_last()) + subs.last().vertices
    }
}

/// Vertices are submitted in the order in which they were appended: over any
/// run of appends that the mesh can take, the submissions, the closing flush
/// included, hold one after the other what was staged at the start and then
/// the vertices of the draws, draw by draw.
pub proof fn lemma_submits_in_order<V>(b: BatchView<V>, draws: Seq<Geometry<V>>)
    requires
        b.wf(),
        accepts_all(b, draws),
    ensures
        joined_submissions(emitted(b, draws)) + run(b, draws).vertices == b.vertices
            + joined_vertices(draws),
        joined_submissions(submitted(b, draws)) == b.vertices + joined_vertices(draws),
    decreases draws.len(),
{
    if draws.len() > 0 {
        let head = draws.drop_last();
        let g = draws.last();
        assert forall|i: int| 0 <= i < head.len() implies b.accepts(#[trigger] head[i]) by {
            assert(head[i] == draws[i]);
        }
        lemma_submits_in_order(b, head);
        let before = run(b, head);
        let e = emitted(b, head);
        if before.splits(g) {
            let pushed = e.push(before.submission());
            assert(pushed.drop_last() == e);
            assert(pushed.last() == before.submission());
            assert(joined_submissions(emitted(b, draws)) + run(b, draws).vertices =~= (
            joined_submissions(e) + before.vertices) + g.vertices);
        } else {
            assert(joined_submissions(emitted(b, draws)) + run(b, draws).vertices =~= (
            joined_submissions(e) + before.vertices) + g.vertices);
        }
        assert((b.vertices + joined_vertices(head)) + g.vertices =~= b.vertices + joined_vertices(
            draws,
        ));
    } else {
        assert(joined_submissions(emitted(b, draws)) + run(b, draws).vertices =~= b.vertices
            + joined_vertices(draws));
    }
    let last = run(b, draws);
    if last.pending() {
        let all = emitted(b, draws).push(last.submission());
        assert(all.drop_last() == emitted(b, draws));
        assert(all.last() == last.submission());
    } else {
        assert(joined_submissions(emitted(b, draws)) + last.vertices =~= joined_submissions(
            emitted(b, draws),
        ));
    }
}

/// Draws under one state coalesce: where nothing is staged at the start,
/// every draw is under the state `s`, and the draws fit the buffers together,
/// appending them hands out nothing, however many they are, and stages their
/// vertices in the order of the draws. The flush that follows is then the one
/// submission, under `s`, of all of them.
pub proof fn lemma_same_state_coalesces<V>(b: BatchView<V>, draws: Seq<Geometry<V>>, s: BatchState)
    requires
        b.wf(),
        !b.pending(),
        accepts_all(b, draws),
        forall|i: int| 0 <= i < draws.len() ==> (#[trigger] draws[i]).state == s,
        vertex_total(draws) <= b.max_vertices,
        index_total(draws) <= b.max_indices,
    ensures
        emitted(b, draws) == Seq::<SubmissionView<V>>::empty(),
        run(b, draws).vertices == joined_vertices(draws),
        run(b, draws).vertices.len() == vertex_total(draws),
        run(b, draws).indices.len() == index_total(draws),
        run(b, draws).draw_count == b.draw_count,
        draws.len() > 0 ==> run(b, draws).state == Some(s),
        vertex_total(draws) > 0 ==> submitted(b, draws).len() == 1 && submitted(b, draws)[0].state
            == s && submitted(b, draws)[0].vertices == joined_vertices(draws),
    decreases draws.len(),
{
    if b.indices.len() > 0 {
        assert(b.indices[0] < b.vertices.len());
    }
    if draws.len() > 0 {
        let head = draws.drop_last();
        let g = draws.last();
        assert forall|i: int| 0 <= i < head.len() implies b.accepts(#[trigger] head[i])
            && head[i].state == s by {
            assert(head[i] == draws[i]);
        }
        lemma_same_state_coalesces(b, head, s);
        lemma_run_wf(b, head);
        assert(g == draws[draws.len() - 1]);
        let before = run(b, head);
        assert(!before.splits(g));
        assert(before.vertices =~= joined_vertices(head));
    } else {
        assert(b.vertices =~= joined_vertices(draws));
    }
}

/// How many runs `draws` fall into, where a run is a stretch of draws, one
/// after the other, under the same state.
pub open spec fn state_runs<V>(draws: Seq<Geometry<V>>) -> nat
    decreases draws.len(),
{
    if draws.len() == 0 {
        0
    } else if draws.len() == 1 {
        1
    } else if draws.last().state == draws.drop_last().last().state {
        state_runs(draws.drop_last())
    } else {
        state_runs(draws.drop_last()) + 1
    }
}

/// How many vertices the last run of `draws` holds.
pub open spec fn run_vertices<V>(draws: Seq<Geometry<V>>) -> nat
    decreases draws.len(),
{
    if draws.len() == 0 {
        0
    } else if draws.len() > 1 && draws.last().state == draws.drop_last().last().state {
        run_vertices(draws.drop_last()) + draws.last().vertices.len()
    } else {
        draws.last().vertices.len()
    }
}

/// How many indices the last run of `draws` holds.
pub open spec fn run_indices<V>(draws: Seq<Geometry<V>>) -> nat
    decreases draws.len(),
{
    if draws.len() == 0 {
        0
    } else if draws.len() > 1 && draws.last().state == draws.drop_last().last().state {
        run_indices(draws.drop_last()) + draws.last().indices.len()
    } else {
        draws.last().indices.len()
    }
}

/// Every run of `draws` fits the buffers of `b` as one batch.
pub open spec fn runs_fit<V>(b: BatchView<V>, draws: Seq<Geometry<V>>) -> bool {
    forall|k: int|
        0 <= k <= draws.len() ==> run_vertices(#[trigger] draws.take(k)) <= b.max_vertices
            && run_indices(draws.take(k)) <= b.max_indices
}

/// Every one of `draws` has a vertex.
pub open spec fn all_stage<V>(draws: Seq<Geometry<V>>) -> bool {
    forall|i: int| 0 <= i < draws.len() ==> (#[trigger] draws[i]).vertices.len() > 0
}

/// `n`, or the largest `usize` where `n` is larger.
pub open spec fn clamped(n: nat) -> nat {
    if n > usize::MAX {
        usize::MAX as nat
    } else {
        n
    }
}

/// One submission per run: where nothing is staged at the start, every draw
/// has a vertex, and every run fits the buffers as one batch, the mesh hands
/// out a submission exactly where the state changes. With the closing flush
/// there are as many submissions as runs, and the mesh has counted them.
pub proof fn lemma_one_submission_per_run<V>(b: BatchView<V>, draws: Seq<Geometry<V>>)
    requires
        b.wf(),
        !b.pending(),
        accepts_all(b, draws),
        all_stage(draws),
        runs_fit(b, draws),
    ensures
        draws.len() > 0 ==> emitted(b, draws).len() + 1 == state_runs(draws),
        draws.len() > 0 ==> run(b, draws).pending(),
        draws.len() > 0 ==> run(b, draws).state == Some(draws.last().state),
        run(b, draws).vertices.len() == run_vertices(draws),
        run(b, draws).indices.len() == run_indices(draws),
        run(b, draws).draw_count == clamped(b.draw_count + emitted(b, draws).len()),
        submitted(b, draws).len() == state_runs(draws),
        run(b, draws).flushed().draw_count == clamped(b.draw_count + state_runs(draws)),
    decreases draws.len(),
{
    if b.indices.len() > 0 {
        assert(b.indices[0] < b.vertices.len());
    }
    if draws.len() > 0 {
        let head = draws.drop_last();
        let g = draws.last();
        assert(g == draws[draws.len() - 1]);
        assert(draws.take(draws.len() as int) == draws);
        assert forall|i: int| 0 <= i < head.len() implies b.accepts(#[trigger] head[i])
            && head[i].vertices.len() > 0 by {
            assert(head[i] == draws[i]);
        }
        assert forall|k: int| 0 <= k <= head.len() implies run_vertices(#[trigger] head.take(k))
            <= b.max_vertices && run_indices(head.take(k)) <= b.max_indices by {
            assert(head.take(k) == draws.take(k));
        }
        lemma_one_submission_per_run(b, head);
        lemma_run_wf(b, head);
        let before = run(b, head);
        if head.len() > 0 {
            assert(head.last() == draws[draws.len() - 2]);
            assert(before.splits(g) <==> g.state != head.last().state);
        } else {
            assert(!before.splits(g));
        }
    }
}

/// Draws that alternate between two pipelines split: where nothing is staged
/// at the start, every draw has a vertex, and the draws are by turns under
/// `s1` and `s2`, states of different pipelines, there are, with the closing
/// flush, as many submissions as draws.
pub proof fn lemma_alternating_pipelines_split<V>(
    b: BatchView<V>,
    draws: Seq<Geometry<V>>,
    s1: BatchState,
    s2: BatchState,
)
    requires
        b.wf(),
        !b.pending(),
        accepts_all(b, draws),
        all_stage(draws),
        s1.pipeline != s2.pipeline,
        forall|i: int|
            0 <= i < draws.len() ==> (#[trigger] draws[i]).state == (if i % 2 == 0 {
                s1
            } else {
                s2
            }),
    ensures
        submitted(b, draws).len() == draws.len(),
        state_runs(draws) == draws.len(),
{
    lemma_alternating_runs(b, draws, s1, s2, draws.len() as int);
    assert(draws.take(draws.len() as int) == draws);
    assert forall|k: int| 0 <= k <= draws.len() implies run_vertices(#[trigger] draws.take(k))
        <= b.max_vertices && run_indices(draws.take(k)) <= b.max_indices by {
        lemma_alternating_runs(b, draws, s1, s2, k);
    }
    lemma_one_submission_per_run(b, draws);
}

/// Of draws that alternate between two states, every run is one draw.
proof fn lemma_alternating_runs<V>(
    b: BatchView<V>,
    draws: Seq<Geometry<V>>,
    s1: BatchState,
    s2: BatchState,
    k: int,
)
    requires
        0 <= k <= draws.len(),
        accepts_all(b, draws),
        s1 != s2,
        forall|i: int|
            0 <= i < draws.len() ==> (#[trigger] draws[i]).state == (if i % 2 == 0 {
                s1
            } else {
                s2
            }),
    ensures
        state_runs(draws.take(k)) == k,
        run_vertices(draws.take(k)) <= b.max_vertices,
        run_indices(draws.take(k)) <= b.max_indices,
    decreases k,
{
    let t = draws.take(k);
    if k > 0 {
        assert(t.drop_last() == draws.take(k - 1));
        lemma_alternating_runs(b, draws, s1, s2, k - 1);
        assert(t.last() == draws[k - 1]);
        assert(b.accepts(draws[k - 1]));
        if k > 1 {
            assert(t.drop_last().last() == draws[k - 2]);
        }
    }
}

} // verus!
