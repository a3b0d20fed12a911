//! The batched mesh: geometry that shares GPU state is staged together and
//! handed out as one submission.

use vstd::prelude::*;
use super::gltypes::Primitive;
use super::pipeline::Pipeline;
use super::texture::Texture;
use super::Blend;
use super::Error;

verus! {

/// The GPU state that a batch is drawn under.
#[derive(Clone, Copy, Debug, PartialEq, Eq, Structural)]
pub struct BatchState {
    pub pipeline: Pipeline,
    pub texture: Texture,
    pub blend: Blend,
    pub prim: Primitive,
}

/// One draw call's worth of geometry, with the state to draw it under.
#[derive(Debug, PartialEq, Eq)]
pub struct Submission<V> {
    pub state: BatchState,
    pub vertices: Vec<V>,
    pub indices: Vec<u32>,
}

/// What a [`Submission`] holds.
pub struct SubmissionView<V> {
    pub state: BatchState,
    pub vertices: Seq<V>,
    pub indices: Seq<u32>,
}

impl<V> View for Submission<V> {
    type V = SubmissionView<V>;

    open spec fn view(&self) -> SubmissionView<V> {
        SubmissionView { state: self.state, vertices: self.vertices@, indices: self.indices@ }
    }
}

/// Geometry as it is handed to the mesh: vertices, indices into them, and the
/// state it is to be drawn under.
pub struct Geometry<V> {
    pub vertices: Seq<V>,
    pub indices: Seq<u32>,
    pub state: BatchState,
}

/// Every index points at one of the `count` vertices.
pub open spec fn indices_within(indices: Seq<u32>, count: nat) -> bool {
    forall|i: int| 0 <= i < indices.len() ==> (#[trigger] indices[i]) < count
}

/// Each index moved up by `offset`.
pub open spec fn shifted(indices: Seq<u32>, offset: nat) -> Seq<u32> {
    Seq::new(indices.len(), |i: int| (indices[i] + offset) as u32)
}

/// The next value of a counter that stops at the largest `usize`.
pub open spec fn count_up(n: nat) -> nat {
    if n < usize::MAX {
        n + 1
    } else {
        n
    }
}

/// What a [`BatchedMesh`] holds: its capacities, the staged vertices and
/// indices, the state they were staged under, and how many submissions it has
/// handed out since the count was last cleared.
pub struct BatchView<V> {
    pub max_vertices: nat,
    pub max_indices: nat,
    pub vertices: Seq<V>,
    pub indices: Seq<u32>,
    pub state: Option<BatchState>,
    pub draw_count: nat,
}

impl<V> BatchView<V> {
    /// Staged data fits the capacities, staged indices point at staged
    /// vertices, and staged data has a state.
    pub open spec fn wf(self) -> bool {
        &&& self.max_vertices <= u32::MAX
        &&& self.max_indices <= usize::MAX
        &&& self.vertices.len() <= self.max_vertices
        &&& self.indices.len() <= self.max_indices
        &&& indices_within(self.indices, self.vertices.len())
        &&& self.vertices.len() > 0 ==> self.state is Some
        &&& self.draw_count <= usize::MAX
    }

    /// Something is staged.
    pub open spec fn pending(self) -> bool {
        self.vertices.len() > 0
    }

    /// The mesh can take `g` at all: it fits the empty buffers and its indices
    /// stay within its own vertices.
    pub open spec fn accepts(self, g: Geometry<V>) -> bool {
        &&& g.vertices.len() <= self.max_vertices
        &&& g.indices.len() <= self.max_indices
        &&& indices_within(g.indices, g.vertices.len())
    }

    /// Staging `g` has to be preceded by a flush: something is staged, and it
    /// was staged under another state or leaves too little room.
    pub open spec fn splits(self, g: Geometry<V>) -> bool {
        self.pending() && (self.state != Some(g.state) || self.vertices.len() + g.vertices.len()
            > self.max_vertices || self.indices.len() + g.indices.len() > self.max_indices)
    }

    /// What a flush hands out, where something is staged.
    pub open spec fn submission(self) -> SubmissionView<V> {
        SubmissionView { state: self.state.unwrap(), vertices: self.vertices, indices: self.indices }
    }

    /// The mesh after a flush.
    pub open spec fn flushed(self) -> BatchView<V> {
        if self.pending() {
            BatchView {
                vertices: Seq::empty(),
                indices: Seq::empty(),
                draw_count: count_up(self.draw_count),
                ..self
            }
        } else {
            self
        }
    }

    /// The mesh after `g` was appended.
    pub open spec fn appended(self, g: Geometry<V>) -> BatchView<V> {
        let b = if self.splits(g) {
            self.flushed()
        } else {
            self
        };
        BatchView {
            vertices: b.vertices + g.vertices,
            indices: b.indices + shifted(g.indices, b.vertices.len()),
            state: Some(g.state),
            ..b
        }
    }

    /// What appending `g` hands out.
    pub open spec fn append_emits(self, g: Geometry<V>) -> Option<SubmissionView<V>> {
        if self.splits(g) {
            Some(self.submission())
        } else {
            None
        }
    }
}

/// Accumulates geometry in buffers of fixed capacity and hands it out one
/// batch at a time.
pub struct BatchedMesh<V> {
    max_vertices: usize,
    max_indices: usize,
    vqueue: Vec<V>,
    iqueue: Vec<u32>,
    state: Option<BatchState>,
    draw_count: usize,
}

impl<V> View for BatchedMesh<V> {
    type V = BatchView<V>;

    closed spec fn view(&self) -> BatchView<V> {
        BatchView {
            max_vertices: self.max_vertices as nat,
            max_indices: self.max_indices as nat,
            vertices: self.vqueue@,
            indices: self.iqueue@,
            state: self.state,
            draw_count: self.draw_count as nat,
        }
    }
}

impl<V: Copy> BatchedMesh<V> {
    /// The invariant of the mesh.
    pub open spec fn wf(&self) -> bool {
        self@.wf()
    }

    /// An empty mesh with room for `max_vertices` vertices and `max_indices`
    /// indices. Fails with `CapacityTooLarge` exactly when `max_vertices` is
    /// more than a 32-bit index can address.
    pub fn new(max_vertices: usize, max_indices: usize) -> (r: Result<Self, Error>)
        ensures
            max_vertices > u32::MAX ==> r == Err::<Self, Error>(Error::CapacityTooLarge),
            max_vertices <= u32::MAX ==> r is Ok && r.unwrap().wf() && r.unwrap()@ == (BatchView::<V> {
                max_vertices: max_vertices as nat,
                max_indices: max_indices as nat,
                vertices: Seq::empty(),
                indices: Seq::empty(),
                state: None,
                draw_count: 0,
            }),
    {
        if max_vertices > 0xffff_ffff {
            return Err(Error::CapacityTooLarge);
        }
        Ok(
            BatchedMesh {
                max_vertices,
                max_indices,
                vqueue: Vec::new(),
                iqueue: Vec::new(),
                state: None,
                draw_count: 0,
            },
        )
    }

    /// Hands out everything that is staged as one submission, counts it, and
    /// leaves the buffers empty. Does nothing where nothing is staged.
    pub fn flush(&mut self) -> (r: Option<Submission<V>>)
        requires
            old(self).wf(),
        ensures
            final(self).wf(),
            final(self)@ == old(self)@.flushed(),
            old(self)@.pending() ==> r is Some && r.unwrap()@ == old(self)@.submission(),
            !old(self)@.pending() ==> r is None,
    {
        if self.vqueue.len() == 0 {
            return None;
        }
        let state = match self.state {
            Some(s) => s,
            None => { return None; },
        };
        let mut vertices: Vec<V> = Vec::new();
        let mut indices: Vec<u32> = Vec::new();
        core::mem::swap(&mut self.vqueue, &mut vertices);
        core::mem::swap(&mut self.iqueue, &mut indices);
        if self.draw_count < usize::MAX {
            self.draw_count = self.draw_count + 1;
        }
        Some(Submission { state, vertices, indices })
    }

    /// Stages `vertices` and `indices` to be drawn under `state`.
    ///
    /// Geometry that can never fit the buffers is refused with `MeshTooLarge`,
    /// and geometry with an index past its own vertices with
    /// `IndexOutOfRange`; the mesh is then left as it was. Otherwise, where
    /// something is staged under another state, or the new geometry does not
    /// fit beside what is staged, the staged batch is flushed first and
    /// returned. The new indices are moved up by the number of vertices staged
    /// before them, so that the batch shares one index space.
    pub fn append(&mut self, vertices: &[V], indices: &[u32], state: BatchState) -> (r: Result<
        Option<Submission<V>>,
        Error,
    >)
        requires
            old(self).wf(),
        ensures
            final(self).wf(),
            ({
                let g = Geometry { vertices: vertices@, indices: indices@, state };
                let b = old(self)@;
                &&& (vertices@.len() > b.max_vertices || indices@.len() > b.max_indices) ==> r
                    == Err::<Option<Submission<V>>, Error>(Error::MeshTooLarge)
                &&& (vertices@.len() <= b.max_vertices && indices@.len() <= b.max_indices
                    && !indices_within(indices@, vertices@.len())) ==> r == Err::<
                    Option<Submission<V>>,
                    Error,
                >(Error::IndexOutOfRange)
                &&& r is Err ==> final(self)@ == b
                &&& b.accepts(g) ==> r is Ok && final(self)@ == b.appended(g) && match r.unwrap() {
                    Some(s) => b.append_emits(g) == Some(s@),
                    None => b.append_emits(g) is None,
                }
            }),
    {
        if vertices.len() > self.max_vertices || indices.len() > self.max_indices {
            return Err(Error::MeshTooLarge);
        }
        if !all_within(indices, vertices.len()) {
            return Err(Error::IndexOutOfRange);
        }
        let ghost g = Geometry { vertices: vertices@, indices: indices@, state };
        let ghost b = self@;
        let split = self.vqueue.len() > 0 && (!self.staged_under(state) || vertices.len()
            > self.max_vertices - self.vqueue.len() || indices.len() > self.max_indices
            - self.iqueue.len());
        assert(split == b.splits(g));
        let emitted = if split {
            self.flush()
        } else {
            None
        };
        let ghost base = self@;
        assert(base.indices.len() + indices@.len() <= base.max_indices) by {
            if base.vertices.len() == 0 && base.indices.len() > 0 {
                assert(base.indices[0] < base.vertices.len());
            }
        }
        self.state = Some(state);
        let offset: usize = self.vqueue.len();
        let mut i: usize = 0;
        while i < vertices.len()
            invariant
                i <= vertices.len(),
                self.vqueue@ == base.vertices + vertices@.subrange(0, i as int),
                self.iqueue@ == base.indices,
                self.max_vertices == base.max_vertices,
                self.max_indices == base.max_indices,
                self.draw_count == base.draw_count,
                self.state == Some(state),
            decreases vertices.len() - i,
        {
            self.vqueue.push(vertices[i]);
            i = i + 1;
            assert(vertices@.subrange(0, i as int) == vertices@.subrange(0, i - 1).push(
                vertices@[i - 1],
            ));
        }
        assert(vertices@.subrange(0, vertices@.len() as int) == vertices@);
        let mut j: usize = 0;
        while j < indices.len()
            invariant
                j <= indices.len(),
                offset == base.vertices.len(),
                offset + vertices@.len() <= u32::MAX,
                indices_within(indices@, vertices@.len()),
                self.vqueue@ == base.vertices + vertices@,
                self.iqueue@ == base.indices + shifted(indices@, offset as nat).subrange(
                    0,
                    j as int,
                ),
                self.max_vertices == base.max_vertices,
                self.max_indices == base.max_indices,
                self.draw_count == base.draw_count,
                self.state == Some(state),
            decreases indices.len() - j,
        {
            let moved: u32 = indices[j] + (offset as u32);
            self.iqueue.push(moved);
            j = j + 1;
            assert(shifted(indices@, offset as nat).subrange(0, j as int) == shifted(
                indices@,
                offset as nat,
            ).subrange(0, j - 1).push(moved));
        }
        assert(shifted(indices@, offset as nat).subrange(0, indices@.len() as int) == shifted(
            indices@,
            offset as nat,
        ));
        assert(self@ == b.appended(g));
        assert(indices_within(self@.indices, self@.vertices.len())) by {
            assert forall|k: int| 0 <= k < self@.indices.len() implies (#[trigger] self@.indices[k])
                < self@.vertices.len() by {
                if k >= base.indices.len() {
                    assert(self@.indices[k] == shifted(indices@, offset as nat)[k
                        - base.indices.len()]);
                    assert(indices@[k - base.indices.len()] < vertices@.len());
                } else {
                    assert(self@.indices[k] == base.indices[k]);
                }
            }
        }
        Ok(emitted)
    }

    /// Whether what is staged was staged under `state`.
    fn staged_under(&self, state: BatchState) -> (r: bool)
        ensures
            r == (self@.state == Some(state)),
    {
        match self.state {
            Some(s) => s == state,
            None => false,
        }
    }

    /// How many submissions the mesh has handed out since the count was last
    /// cleared. The count stops at the largest `usize`.
    pub fn draw_count(&self) -> (n: usize)
        ensures
            n == self@.draw_count,
    {
        self.draw_count
    }

    /// Sets the count of submissions back to zero.
    pub fn clear_draw_count(&mut self)
        ensures
            final(self)@ == (BatchView { draw_count: 0, ..old(self)@ }),
    {
        self.draw_count = 0;
    }

    /// Whether anything is staged.
    pub fn is_empty(&self) -> (r: bool)
        ensures
            r == !self@.pending(),
    {
        self.vqueue.len() == 0
    }
}

/// Whether every index points at one of the `count` vertices.
fn all_within(indices: &[u32], count: usize) -> (r: bool)
    ensures
        r == indices_within(indices@, count as nat),
{
    let mut i: usize = 0;
    while i < indices.len()
        invariant
            i <= indices.len(),
            forall|k: int| 0 <= k < i ==> (#[trigger] indices@[k]) < count,
        decreases indices.len() - i,
    {
        if indices[i] as usize >= count {
            return false;
        }
        i = i + 1;
    }
    true
}

} // verus!
