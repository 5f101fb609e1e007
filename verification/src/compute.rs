//! Orchestration of one computation: encode the parameters, flatten the
//! mesh, narrow the counts the native call expects, submit, and — once the
//! engine reports ready — consume every hull into owned storage.

use crate::engine::EngineState;
use crate::engine::VHACD;
use crate::geometry::flatten_points;
use crate::geometry::flatten_triangles;
use crate::geometry::Mesh;
use crate::hull::materializes;
use crate::iter::ConvexHullIter;
use crate::params::NativeParameters;
use crate::params::Parameters;
use vstd::prelude::*;

verus! {

/// Raised while building the native call's arguments.
#[derive(Clone, Copy, Debug, PartialEq, Eq, Structural)]
pub enum ComputeError {
    /// A mesh dimension does not fit the 32-bit counter the native call
    /// takes.  Checked explicitly here, never discovered by truncation.
    MeshTooLarge,
}

/// Everything the native compute call takes, laid out and narrowed ahead
/// of the call: flat buffers, their 32-bit counts, and the encoded
/// parameter record.
pub struct ComputeRequest {
    /// Every vertex's three coordinates, concatenated.
    pub points: Vec<u64>,
    /// Length of `points` — the call counts coordinate scalars here.
    pub point_count: u32,
    /// Every triangle's three vertex indices, concatenated.
    pub indices: Vec<u32>,
    /// Number of triangles: a third of the length of `indices`.
    pub triangle_count: u32,
    /// The encoded parameter record, callbacks disabled.
    pub params: NativeParameters,
}

/// `req` is the faithful native-call image of `mesh` under `params`.
pub open spec fn request_matches(req: ComputeRequest, mesh: Mesh, params: Parameters) -> bool {
    &&& req.points@ == flatten_points(mesh.coords@)
    &&& req.point_count == mesh.coords@.len() * 3
    &&& req.indices@ == flatten_triangles(mesh.indices@)
    &&& req.triangle_count == mesh.indices@.len()
    &&& req.params == params.spec_to_native()
}

/// Both counts the native call takes fit its 32-bit width.
pub open spec fn mesh_fits(mesh: Mesh) -> bool {
    mesh.coords@.len() * 3 <= u32::MAX && mesh.indices@.len() <= u32::MAX
}

/// Builds the native call's argument block: parameters encoded, mesh
/// flattened, counts narrowed.  Fails — before any native call could see
/// the values — exactly when a count does not fit 32 bits.
pub fn prepare_compute(mesh: &Mesh, params: &Parameters) -> (r: Result<ComputeRequest, ComputeError>)
    ensures
        r is Ok <==> mesh_fits(*mesh),
        r matches Ok(req) ==> request_matches(req, *mesh, *params),
        r is Err ==> r == Err::<ComputeRequest, ComputeError>(ComputeError::MeshTooLarge),
{
    let points = mesh.flat_coords();
    let indices = mesh.flat_indices();
    if points.len() > u32::MAX as usize {
        return Err(ComputeError::MeshTooLarge);
    }
    let triangle_count = indices.len() / 3;
    if triangle_count > u32::MAX as usize {
        return Err(ComputeError::MeshTooLarge);
    }
    let point_count = points.len() as u32;
    Ok(
        ComputeRequest {
            points,
            point_count,
            indices,
            triangle_count: triangle_count as u32,
            params: params.to_native(),
        },
    )
}

/// The submission half of a full run: builds the request and moves the
/// engine into its computing stage.  On failure the engine is left exactly
/// as it was, and nothing reaches the native side.
pub fn submit(vhacd: &mut VHACD, mesh: &Mesh, params: &Parameters) -> (r: Result<ComputeRequest, ComputeError>)
    requires
        old(vhacd).state() != EngineState::Computing,
    ensures
        r is Ok <==> mesh_fits(*mesh),
        r matches Ok(req) ==> request_matches(req, *mesh, *params),
        r is Ok ==> final(vhacd).state() == EngineState::Computing,
        r is Ok ==> !final(vhacd).cancel_requested(),
        r is Ok ==> final(vhacd).hulls().len() == 0 && final(vhacd).wf(),
        r is Err ==> r == Err::<ComputeRequest, ComputeError>(ComputeError::MeshTooLarge),
        r is Err ==> *final(vhacd) == *old(vhacd),
{
    match prepare_compute(mesh, params) {
        Ok(req) => {
            vhacd.compute(&req);
            Ok(req)
        },
        Err(e) => Err(e),
    }
}

/// The harvesting half of a full run: walks a finished computation and
/// materializes every hull, in index order, as an owned mesh.  The handle
/// stays alive for the whole pass; everything returned is a deep copy that
/// outlives it.
pub fn harvest(vhacd: &VHACD) -> (r: Vec<Mesh>)
    requires
        vhacd.wf(),
        vhacd.state() != EngineState::Computing,
    ensures
        r@.len() == vhacd.hulls().len(),
        forall|i: int| 0 <= i < r@.len() ==> materializes(r@[i], vhacd.hulls()[i]),
{
    let mut iter = ConvexHullIter::new(vhacd);
    let n = vhacd.hull_count();
    let mut out: Vec<Mesh> = Vec::new();
    let mut k: u32 = 0;
    while k < n
        invariant
            iter.wf(),
            iter.engine() == *vhacd,
            n == vhacd.hulls().len(),
            iter.size() == n,
            iter.next_index() == k,
            k <= n,
            out@.len() == k,
            forall|i: int| 0 <= i < k ==> materializes(out@[i], vhacd.hulls()[i]),
        decreases n - k,
    {
        let m = iter.next();
        match m {
            Some(mesh) => {
                out.push(mesh);
            },
            // The cursor is short of the captured count, so this step
            // cannot report exhaustion.
            None => vstd::pervasive::unreached(),
        }
        k = k + 1;
    }
    out
}

} // verus!
