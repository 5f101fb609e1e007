//! Lazy, index-bounded harvest of per-hull geometry: one pass, forward
//! only, each step a deep copy out of engine-owned storage.

use crate::engine::EngineState;
use crate::engine::VHACD;
use crate::geometry::Mesh;
use crate::hull::materializes;
use vstd::prelude::*;

verus! {

/// Walks the hulls of a finished computation in index order.  The hull
/// count is captured once, at construction, so the length of the sequence
/// is fixed from that moment on; restarting means building a new iterator,
/// which re-queries the count.
pub struct ConvexHullIter<'a> {
    vhacd: &'a VHACD,
    next: u32,
    size: u32,
}

/// Where the cursor stands after one step: advanced by one while hulls
/// remain, unchanged once they are exhausted.
pub open spec fn spec_step_index(next: u32, size: u32) -> u32 {
    if next < size {
        (next + 1) as u32
    } else {
        next
    }
}

/// The cursor after `k` steps of a harvest that started at index 0.
pub open spec fn spec_index_after(k: nat, size: u32) -> u32
    decreases k,
{
    if k == 0 {
        0u32
    } else {
        spec_step_index(spec_index_after((k - 1) as nat, size), size)
    }
}

impl<'a> ConvexHullIter<'a> {
    /// The engine the iterator reads from.
    pub closed spec fn engine(self) -> VHACD {
        *self.vhacd
    }

    /// Index of the hull the next step will materialize.
    pub closed spec fn next_index(self) -> u32 {
        self.next
    }

    /// The hull count captured at construction.
    pub closed spec fn size(self) -> u32 {
        self.size
    }

    /// A live harvest: the captured count matches the engine's storage, no
    /// computation is in flight underneath it, and the cursor never passes
    /// the end.
    pub open spec fn wf(self) -> bool {
        &&& self.size() == self.engine().hulls().len()
        &&& self.engine().state() != EngineState::Computing
        &&& self.next_index() <= self.size()
    }

    /// Starts a harvest over a finished computation, capturing the hull
    /// count once.
    pub fn new(vhacd: &'a VHACD) -> (r: Self)
        requires
            vhacd.wf(),
            vhacd.state() != EngineState::Computing,
        ensures
            r.wf(),
            r.engine() == *vhacd,
            r.next_index() == 0,
            r.size() == vhacd.hulls().len(),
    {
        let size = vhacd.hull_count();
        ConvexHullIter { vhacd, next: 0, size }
    }

    /// One step: materializes the hull under the cursor as an owned mesh
    /// and advances, or reports exhaustion once every hull has been handed
    /// out.  A degenerate hull (no points, no triangles) comes out as an
    /// empty mesh, not as an error, and the cursor advances past it all
    /// the same.
    pub fn next(&mut self) -> (r: Option<Mesh>)
        requires
            old(self).wf(),
        ensures
            final(self).wf(),
            final(self).engine() == old(self).engine(),
            final(self).size() == old(self).size(),
            final(self).next_index() == spec_step_index(old(self).next_index(), old(self).size()),
            (r is Some) == (old(self).next_index() < old(self).size()),
            r matches Some(m) ==> materializes(
                m,
                old(self).engine().hulls()[old(self).next_index() as int],
            ),
    {
        if self.next >= self.size {
            None
        } else {
            let vhacd = self.vhacd;
            let ch = vhacd.get_hull(self.next);
            let mesh = ch.to_mesh();
            self.next = self.next + 1;
            Some(mesh)
        }
    }
}

/// Exhaustion of the harvest: starting from index 0 over `size` hulls,
/// each of the first `size` steps lands short of the end (so it yields a
/// hull), and every step from the `size`-th on sits at the end (so it
/// reports exhaustion) — exactly `size` hulls come out, never one more.
pub proof fn lemma_iterator_exhaustion(k: nat, size: u32)
    ensures
        k < size ==> spec_index_after(k, size) == k,
        k >= size ==> spec_index_after(k, size) == size,
    decreases k,
{
    if k > 0 {
        lemma_iterator_exhaustion((k - 1) as nat, size);
    }
}

} // verus!
