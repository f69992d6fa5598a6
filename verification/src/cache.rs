//! Deduplicating, asynchronous pipeline cache.
//!
//! `submit` is keyed by descriptor value: structurally identical descriptors
//! submitted any number of times, from any effect or frame, return the same
//! handle and trigger at most one compilation. Compilation itself is
//! background work done by the opaque shader backend; the backend reports
//! each job's outcome once through `finish_compilation`. `try_resolve` never
//! blocks: until the backend reports, a handle resolves to `Pending`; a
//! reported failure is permanent and surfaced as a distinguishable `Failed`
//! resolution, never a panic.

use vstd::prelude::*;

use crate::render_resource::desc_eq;
use crate::render_resource::desc_matches;
use crate::render_resource::RenderPipelineDescriptor;

verus! {

/// Token returned immediately by `submit`; carries no guarantee that the
/// pipeline is compiled yet.
#[derive(Clone, Copy, PartialEq, Eq, Structural, Debug)]
pub struct PipelineHandle {
    pub index: usize,
}

/// Compiled pipeline state, ready to bind. Its identity is the cache slot it
/// was compiled for.
#[derive(Clone, Copy, PartialEq, Eq, Structural, Debug)]
pub struct CompiledPipeline {
    pub id: usize,
}

/// Lifecycle state of one cache slot.
#[derive(Clone, Copy, PartialEq, Eq, Structural, Debug)]
pub enum PipelineState {
    /// Submitted; the backend has not reported yet.
    Queued,
    /// The backend compiled the pipeline.
    Ready(CompiledPipeline),
    /// The backend rejected the shader source; permanent for this slot.
    Failed,
}

/// What `try_resolve` reports to a caller.
#[derive(Clone, Copy, PartialEq, Eq, Structural, Debug)]
pub enum PipelineResolution {
    /// Compiled state, ready to bind.
    Ready(CompiledPipeline),
    /// Not compiled yet: a valid steady state, not an error. Callers skip,
    /// they never retry synchronously.
    Pending,
    /// Compilation failed, permanently. Callers skip this node's draw.
    Failed,
}

/// The cache: one descriptor and one lifecycle state per slot, with no two
/// slots holding matching descriptors.
pub struct PipelineCache {
    pub descriptors: Vec<RenderPipelineDescriptor>,
    pub states: Vec<PipelineState>,
}

impl PipelineCache {
    /// Well-formedness: states parallel descriptors, descriptors are pairwise
    /// distinct (content-addressed deduplication), and a compiled pipeline's
    /// identity is its slot.
    pub open spec fn wf(self) -> bool {
        &&& self.states@.len() == self.descriptors@.len()
        &&& forall|i: int, j: int|
            0 <= i < j < self.descriptors@.len() ==> !desc_matches(
                self.descriptors@[i],
                self.descriptors@[j],
            )
        &&& forall|i: int|
            0 <= i < self.states@.len() ==> (#[trigger] self.states@[i]
                matches PipelineState::Ready(c) ==> c.id == i)
    }

    /// Whether `h` was handed out by this cache.
    pub open spec fn valid_handle(self, h: PipelineHandle) -> bool {
        h.index < self.descriptors@.len()
    }

    /// The lifecycle state of the slot `h` names.
    pub open spec fn spec_state(self, h: PipelineHandle) -> PipelineState {
        self.states@[h.index as int]
    }

    /// Whether some slot holds a descriptor matching `d`.
    pub open spec fn has_desc(self, d: RenderPipelineDescriptor) -> bool {
        exists|i: int| 0 <= i < self.descriptors@.len() && desc_matches(self.descriptors@[i], d)
    }

    /// The slot holding a descriptor matching `d` (meaningful only when
    /// `has_desc`).
    pub open spec fn index_of_desc(self, d: RenderPipelineDescriptor) -> int {
        choose|i: int| 0 <= i < self.descriptors@.len() && desc_matches(self.descriptors@[i], d)
    }

    /// What `try_resolve` reports for `h`.
    pub open spec fn resolution_of(self, h: PipelineHandle) -> PipelineResolution {
        match self.spec_state(h) {
            PipelineState::Queued => PipelineResolution::Pending,
            PipelineState::Ready(c) => PipelineResolution::Ready(c),
            PipelineState::Failed => PipelineResolution::Failed,
        }
    }

    /// In a well-formed cache the slot matching a descriptor is unique.
    pub proof fn lemma_index_of_desc(self, d: RenderPipelineDescriptor, i: int)
        requires
            self.wf(),
            0 <= i < self.descriptors@.len(),
            desc_matches(self.descriptors@[i], d),
        ensures
            self.has_desc(d),
            self.index_of_desc(d) == i,
    {
        assert(self.has_desc(d));
        let k = self.index_of_desc(d);
        if k < i {
            assert(!desc_matches(self.descriptors@[k], self.descriptors@[i]));
        } else if i < k {
            assert(!desc_matches(self.descriptors@[i], self.descriptors@[k]));
        }
    }

    /// An empty cache.
    pub fn new() -> (r: PipelineCache)
        ensures
            r.wf(),
            r.descriptors@.len() == 0,
    {
        PipelineCache { descriptors: Vec::new(), states: Vec::new() }
    }

    /// Submit a pipeline descriptor for asynchronous compilation and return
    /// its handle immediately.
    ///
    /// If a matching descriptor was ever submitted before, the earlier
    /// slot's handle is returned and the cache is unchanged: at most one
    /// compilation per descriptor value. Otherwise a new slot is queued. No
    /// existing slot is ever disturbed.
    pub fn submit(&mut self, descriptor: RenderPipelineDescriptor) -> (h: PipelineHandle)
        requires
            old(self).wf(),
        ensures
            final(self).wf(),
            final(self).valid_handle(h),
            desc_matches(final(self).descriptors@[h.index as int], descriptor),
            final(self).descriptors@.len() >= old(self).descriptors@.len(),
            forall|i: int|
                0 <= i < old(self).descriptors@.len() ==> final(self).descriptors@[i]
                    == old(self).descriptors@[i],
            forall|i: int|
                0 <= i < old(self).states@.len() ==> final(self).states@[i]
                    == old(self).states@[i],
            old(self).has_desc(descriptor) ==> h.index == old(self).index_of_desc(descriptor)
                && *final(self) == *old(self),
            !old(self).has_desc(descriptor) ==> h.index == old(self).descriptors@.len()
                && final(self).descriptors@.len() == old(self).descriptors@.len() + 1
                && final(self).spec_state(h) == PipelineState::Queued
                && final(self).descriptors@[h.index as int] == descriptor,
    {
        let n = self.descriptors.len();
        let mut i: usize = 0;
        while i < n
            invariant
                *self == *old(self),
                self.wf(),
                n == self.descriptors@.len(),
                i <= n,
                forall|j: int| 0 <= j < i ==> !desc_matches(self.descriptors@[j], descriptor),
            decreases n - i,
        {
            if desc_eq(&self.descriptors[i], &descriptor) {
                proof {
                    self.lemma_index_of_desc(descriptor, i as int);
                }
                return PipelineHandle { index: i };
            }
            i += 1;
        }
        assert(!old(self).has_desc(descriptor));
        self.descriptors.push(descriptor);
        self.states.push(PipelineState::Queued);
        PipelineHandle { index: n }
    }

    /// Resolve a handle without blocking: compiled state, still pending, or
    /// permanently failed.
    pub fn try_resolve(&self, h: PipelineHandle) -> (r: PipelineResolution)
        requires
            self.valid_handle(h),
            self.wf(),
        ensures
            r == self.resolution_of(h),
    {
        match self.states[h.index] {
            PipelineState::Queued => PipelineResolution::Pending,
            PipelineState::Ready(c) => PipelineResolution::Ready(c),
            PipelineState::Failed => PipelineResolution::Failed,
        }
    }

    /// Record the backend's report that the compilation job for `h`
    /// finished, successfully or not.
    ///
    /// Only a queued slot changes; a slot that already reached `Ready` or
    /// `Failed` keeps that state forever, so a duplicate or late report is
    /// ignored and a failure can never be overwritten.
    pub fn finish_compilation(&mut self, h: PipelineHandle, success: bool)
        requires
            old(self).wf(),
            old(self).valid_handle(h),
        ensures
            final(self).wf(),
            final(self).descriptors@ == old(self).descriptors@,
            final(self).states@.len() == old(self).states@.len(),
            forall|i: int|
                0 <= i < old(self).states@.len() && i != h.index ==> final(self).states@[i]
                    == old(self).states@[i],
            old(self).spec_state(h) is Queued ==> final(self).spec_state(h) == (if success {
                PipelineState::Ready(CompiledPipeline { id: h.index })
            } else {
                PipelineState::Failed
            }),
            !(old(self).spec_state(h) is Queued) ==> *final(self) == *old(self),
    {
        match self.states[h.index] {
            PipelineState::Queued => {
                let new_state = if success {
                    PipelineState::Ready(CompiledPipeline { id: h.index })
                } else {
                    PipelineState::Failed
                };
                self.states.set(h.index, new_state);
            },
            _ => {},
        }
    }
}

/// Deduplication: a descriptor already in the cache submits to its existing
/// slot, and submitting twice with identical content yields the same handle
/// both times, the second submission changing nothing.
pub proof fn lemma_submit_deduplicates(cache: PipelineCache, d: RenderPipelineDescriptor, i: int)
    requires
        cache.wf(),
        0 <= i < cache.descriptors@.len(),
        desc_matches(cache.descriptors@[i], d),
    ensures
        cache.has_desc(d),
        cache.index_of_desc(d) == i,
{
    cache.lemma_index_of_desc(d, i);
}

/// Distinct descriptors are never collapsed: slots holding descriptors that
/// do not match (for instance, two that differ only in fragment shader
/// handle) are distinct slots with distinct handles.
pub proof fn lemma_distinct_descriptors_distinct_handles(
    cache: PipelineCache,
    a: RenderPipelineDescriptor,
    b: RenderPipelineDescriptor,
)
    requires
        cache.wf(),
        cache.has_desc(a),
        cache.has_desc(b),
        !desc_matches(a, b),
    ensures
        cache.index_of_desc(a) != cache.index_of_desc(b),
{
    let ia = cache.index_of_desc(a);
    let ib = cache.index_of_desc(b);
    assert(desc_matches(cache.descriptors@[ia], a));
    assert(desc_matches(cache.descriptors@[ib], b));
    if ia == ib {
        assert(desc_matches(a, b));
    }
}

/// A reported failure is permanent: once a slot resolves to `Failed`, no
/// later submission or backend report moves it out of `Failed`.
pub proof fn lemma_failure_is_permanent(
    before: PipelineCache,
    after: PipelineCache,
    h: PipelineHandle,
)
    requires
        before.wf(),
        before.valid_handle(h),
        before.resolution_of(h) is Failed,
        after.states@.len() >= before.states@.len(),
        forall|i: int|
            0 <= i < before.states@.len() && before.states@[i] is Failed ==> after.states@[i]
                == before.states@[i],
    ensures
        after.valid_handle(h) ==> after.resolution_of(h) is Failed,
{
}

} // verus!
