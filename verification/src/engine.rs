//! Exclusive ownership of the native computation object and the lifecycle
//! this layer tracks for it: create, submit, poll readiness or cancel,
//! take delivery of results, release.

use crate::compute::ComputeRequest;
use crate::hull::ConvexHull;
use vstd::prelude::*;

verus! {

/// Where the computation object stands in its lifecycle.
#[derive(Clone, Copy, Debug, PartialEq, Eq, Structural)]
pub enum EngineState {
    /// Created; no computation submitted yet.
    Idle,
    /// A computation is in flight; results may not be touched.
    Computing,
    /// The most recent computation has finished (normally, by cancellation,
    /// or by failure) and its results are safe to harvest.
    Ready,
}

/// Exclusive owner of one native computation object.
///
/// At most one value owns a given object; ownership is never shared or
/// copied, only moved, so release can happen exactly once — `release`
/// consumes the owner, and afterwards there is no handle left to misuse.
/// The engine keeps the hull storage for as long as the handle lives;
/// everything handed out of it is deep-copied before the handle goes away.
pub struct VHACD {
    state: EngineState,
    cancel_requested: bool,
    hulls: Vec<ConvexHull>,
}

impl VHACD {
    /// Lifecycle stage the engine is in.
    pub closed spec fn state(self) -> EngineState {
        self.state
    }

    /// Whether cooperative cancellation has been requested since the last
    /// submission.
    pub closed spec fn cancel_requested(self) -> bool {
        self.cancel_requested
    }

    /// The hulls the most recent finished computation produced, in the
    /// order the engine numbers them.
    pub closed spec fn hulls(self) -> Seq<ConvexHull> {
        self.hulls@
    }

    /// The engine never stores more hulls than its 32-bit counter can
    /// report.
    pub open spec fn wf(self) -> bool {
        self.hulls().len() <= u32::MAX
    }

    /// Acquires a fresh computation object.  Failure of the native
    /// allocator is fatal and never produces a handle at all, so a handle
    /// that exists is always backed by a live object.
    pub fn new() -> (r: VHACD)
        ensures
            r.state() == EngineState::Idle,
            !r.cancel_requested(),
            r.hulls().len() == 0,
            r.wf(),
    {
        VHACD { state: EngineState::Idle, cancel_requested: false, hulls: Vec::new() }
    }

    /// Submits one decomposition job described by `request`.  Side effect
    /// only: results are not returned here but harvested once `is_ready`
    /// reports completion.  Whatever an earlier run left behind is gone
    /// from this point on.
    pub fn compute(&mut self, request: &ComputeRequest)
        requires
            old(self).state() != EngineState::Computing,
        ensures
            final(self).state() == EngineState::Computing,
            !final(self).cancel_requested(),
            final(self).hulls().len() == 0,
            final(self).wf(),
    {
        self.state = EngineState::Computing;
        self.cancel_requested = false;
        self.hulls = Vec::new();
    }

    /// Delivery of a finished run: the driver that watches the native side
    /// hands over every hull the run produced.  After a cancellation these
    /// may legitimately be fewer than a full run would give, or none; that
    /// is a normal result, not an error.
    pub fn complete(&mut self, hulls: Vec<ConvexHull>)
        requires
            old(self).state() == EngineState::Computing,
            hulls@.len() <= u32::MAX,
        ensures
            final(self).state() == EngineState::Ready,
            final(self).hulls() == hulls@,
            final(self).cancel_requested() == old(self).cancel_requested(),
            final(self).wf(),
    {
        self.state = EngineState::Ready;
        self.hulls = hulls;
    }

    /// Requests cooperative cancellation of an in-flight computation.  Safe
    /// at any time: before any submission or after completion it changes
    /// nothing but the recorded request.  Completion must still be observed
    /// through `is_ready`.
    pub fn cancel(&mut self)
        ensures
            final(self).state() == old(self).state(),
            final(self).cancel_requested(),
            final(self).hulls() == old(self).hulls(),
            final(self).wf() == old(self).wf(),
    {
        self.cancel_requested = true;
    }

    /// Non-blocking poll: true exactly when no computation is in flight,
    /// so that results are safe to harvest.
    pub fn is_ready(&self) -> (r: bool)
        ensures
            r == (self.state() != EngineState::Computing),
    {
        match self.state {
            EngineState::Computing => false,
            EngineState::Idle => true,
            EngineState::Ready => true,
        }
    }

    /// How many hulls the most recent finished computation produced.
    pub fn hull_count(&self) -> (r: u32)
        requires
            self.wf(),
        ensures
            r == self.hulls().len(),
    {
        self.hulls.len() as u32
    }

    /// Borrows the raw geometry of one hull.  The storage behind it stays
    /// engine-owned: callers copy out of it and must not keep it past the
    /// handle's life.
    pub fn get_hull(&self, index: u32) -> (r: &ConvexHull)
        requires
            self.state() != EngineState::Computing,
            index < self.hulls().len(),
        ensures
            *r == self.hulls()[index as int],
    {
        &self.hulls[index as usize]
    }

    /// Gives the computation object back.  Consuming the handle makes a
    /// second release impossible and leaves nothing to use afterwards; the
    /// engine-owned hull storage dies with it.
    pub fn release(self) {
    }
}

} // verus!
