//! Tunable knobs of the decomposition and their bidirectional, validated
//! conversion to and from the engine's native parameter record.

use vstd::prelude::*;

verus! {

/// Decomposition strategy selector.
#[derive(Clone, Copy, Debug, PartialEq, Eq, Structural)]
pub enum Mode {
    Voxel,
    Tetrahedron,
}

/// The discriminant the native parameter record uses for each mode.
pub open spec fn spec_encode_mode(m: Mode) -> u32 {
    match m {
        Mode::Voxel => 0,
        Mode::Tetrahedron => 1,
    }
}

/// The mode a native discriminant stands for, if it is a known one.
pub open spec fn spec_decode_mode(v: u32) -> Option<Mode> {
    if v == 0 {
        Some(Mode::Voxel)
    } else if v == 1 {
        Some(Mode::Tetrahedron)
    } else {
        None
    }
}

/// Raised when a native parameter record cannot be decoded.
#[derive(Clone, Copy, Debug, PartialEq, Eq, Structural)]
pub enum ParameterError {
    /// The native mode discriminant is not a known variant; the unknown
    /// value is carried along.  It is never silently coerced to a default.
    UnexpectedMode(u32),
}

/// The engine's native parameter record, field for field.  Scalar fields the
/// engine reads as 64-bit floating-point values are carried as their IEEE-754
/// bit patterns; this layer copies them through unchanged.  The two native
/// callback pointers (progress and logging) are reduced to the one fact this
/// layer controls about them: whether they are wired up at all.
#[derive(Clone, Copy, Debug, PartialEq, Eq, Structural)]
pub struct NativeParameters {
    /// maximum concavity (bit pattern)
    pub concavity: u64,
    /// bias toward clipping along symmetry planes (bit pattern)
    pub alpha: u64,
    /// bias toward clipping along revolution axes (bit pattern)
    pub beta: u64,
    /// adaptive sampling of the generated convex hulls (bit pattern)
    pub min_volume_per_ch: u64,
    /// whether a progress callback is wired up
    pub callback_enabled: bool,
    /// whether a logging callback is wired up
    pub logger_enabled: bool,
    /// maximum number of voxels generated during the voxelization stage
    pub resolution: u32,
    /// maximum number of vertices per convex hull
    pub max_num_vertices_per_ch: u32,
    /// granularity of the search for the best clipping plane
    pub plane_downsampling: u32,
    /// precision of the hull generation during clipping plane selection
    pub convex_hull_downsampling: u32,
    /// normalize the mesh before decomposing (0 or 1)
    pub pca: u32,
    /// decomposition mode discriminant
    pub mode: u32,
    /// approximate hulls during computation (0 or 1)
    pub convex_hull_approximation: u32,
    /// use OpenCL acceleration if available (0 or 1)
    pub ocl_acceleration: u32,
    /// maximum number of convex hulls produced by the merge stage
    pub max_convex_hulls: u32,
    /// project output hull vertices onto the source mesh
    pub project_hull_vertices: bool,
}

/// All tunable knobs of the decomposition, in the shape callers work with.
/// Scalar fields the engine reads as 64-bit floating-point values are carried
/// as their IEEE-754 bit patterns.
#[derive(Clone, Copy, Debug, PartialEq, Eq, Structural)]
pub struct Parameters {
    /// maximum concavity (bit pattern)
    pub concavity: u64,
    /// bias toward clipping along symmetry planes (bit pattern)
    pub alpha: u64,
    /// bias toward clipping along revolution axes (bit pattern)
    pub beta: u64,
    /// adaptive sampling of the generated convex hulls (bit pattern)
    pub min_volume_per_convex_hull: u64,
    /// maximum number of voxels generated during the voxelization stage
    pub resolution: u32,
    /// maximum number of vertices per convex hull
    pub max_num_vertices_per_convex_hull: u16,
    /// granularity of the search for the best clipping plane
    pub plane_downsampling: u8,
    /// precision of the hull generation during clipping plane selection
    pub convex_hull_downsampling: u8,
    /// normalize the mesh before decomposing
    pub pca: bool,
    pub mode: Mode,
    pub convex_hull_approximation: bool,
    pub ocl_acceleration: bool,
    /// maximum number of convex hulls produced by the merge stage
    pub max_convex_hulls: u32,
    /// project output hull vertices onto the source mesh
    pub project_hull_vertices: bool,
}

impl Parameters {
    /// The native record this parameter block encodes to.  Both callback
    /// fields come out disabled: wiring real callbacks up is not this
    /// layer's business.
    pub open spec fn spec_to_native(self) -> NativeParameters {
        NativeParameters {
            concavity: self.concavity,
            alpha: self.alpha,
            beta: self.beta,
            min_volume_per_ch: self.min_volume_per_convex_hull,
            callback_enabled: false,
            logger_enabled: false,
            resolution: self.resolution,
            max_num_vertices_per_ch: self.max_num_vertices_per_convex_hull as u32,
            plane_downsampling: self.plane_downsampling as u32,
            convex_hull_downsampling: self.convex_hull_downsampling as u32,
            pca: if self.pca { 1u32 } else { 0u32 },
            mode: spec_encode_mode(self.mode),
            convex_hull_approximation: if self.convex_hull_approximation { 1u32 } else { 0u32 },
            ocl_acceleration: if self.ocl_acceleration { 1u32 } else { 0u32 },
            max_convex_hulls: self.max_convex_hulls,
            project_hull_vertices: self.project_hull_vertices,
        }
    }

    /// The parameter block a native record decodes to: total except for the
    /// mode discriminant, where an unknown value is an error, never a
    /// default.  Counters wider than the ergonomic field are narrowed the
    /// way the engine's own readers narrow them.
    pub open spec fn spec_from_native(n: NativeParameters) -> Result<Parameters, ParameterError> {
        match spec_decode_mode(n.mode) {
            Some(m) => Ok(
                Parameters {
                    concavity: n.concavity,
                    alpha: n.alpha,
                    beta: n.beta,
                    min_volume_per_convex_hull: n.min_volume_per_ch,
                    resolution: n.resolution,
                    max_num_vertices_per_convex_hull: n.max_num_vertices_per_ch as u16,
                    plane_downsampling: n.plane_downsampling as u8,
                    convex_hull_downsampling: n.convex_hull_downsampling as u8,
                    pca: n.pca != 0,
                    mode: m,
                    convex_hull_approximation: n.convex_hull_approximation != 0,
                    ocl_acceleration: n.ocl_acceleration != 0,
                    max_convex_hulls: n.max_convex_hulls,
                    project_hull_vertices: n.project_hull_vertices,
                },
            ),
            None => Err(ParameterError::UnexpectedMode(n.mode)),
        }
    }

    /// Field-by-field encoding into the native record: pure, total, and
    /// side-effect free.  Booleans become 0/1 integers, the mode becomes its
    /// native discriminant, and both callback fields are set to disabled.
    pub fn to_native(&self) -> (r: NativeParameters)
        ensures
            r == self.spec_to_native(),
    {
        NativeParameters {
            concavity: self.concavity,
            alpha: self.alpha,
            beta: self.beta,
            min_volume_per_ch: self.min_volume_per_convex_hull,
            callback_enabled: false,
            logger_enabled: false,
            resolution: self.resolution,
            max_num_vertices_per_ch: self.max_num_vertices_per_convex_hull as u32,
            plane_downsampling: self.plane_downsampling as u32,
            convex_hull_downsampling: self.convex_hull_downsampling as u32,
            pca: if self.pca { 1 } else { 0 },
            mode: match self.mode {
                Mode::Voxel => 0,
                Mode::Tetrahedron => 1,
            },
            convex_hull_approximation: if self.convex_hull_approximation { 1 } else { 0 },
            ocl_acceleration: if self.ocl_acceleration { 1 } else { 0 },
            max_convex_hulls: self.max_convex_hulls,
            project_hull_vertices: self.project_hull_vertices,
        }
    }

    /// Decodes a native record.  Succeeds exactly when the mode discriminant
    /// is a known one; any other value comes back as `UnexpectedMode` with
    /// the offending discriminant.
    pub fn from_native(n: &NativeParameters) -> (r: Result<Parameters, ParameterError>)
        ensures
            r == Parameters::spec_from_native(*n),
            r is Ok <==> (n.mode == 0 || n.mode == 1),
    {
        let mode = if n.mode == 0 {
            Mode::Voxel
        } else if n.mode == 1 {
            Mode::Tetrahedron
        } else {
            return Err(ParameterError::UnexpectedMode(n.mode));
        };
        Ok(
            Parameters {
                concavity: n.concavity,
                alpha: n.alpha,
                beta: n.beta,
                min_volume_per_convex_hull: n.min_volume_per_ch,
                resolution: n.resolution,
                max_num_vertices_per_convex_hull: n.max_num_vertices_per_ch as u16,
                plane_downsampling: n.plane_downsampling as u8,
                convex_hull_downsampling: n.convex_hull_downsampling as u8,
                pca: n.pca != 0,
                mode,
                convex_hull_approximation: n.convex_hull_approximation != 0,
                ocl_acceleration: n.ocl_acceleration != 0,
                max_convex_hulls: n.max_convex_hulls,
                project_hull_vertices: n.project_hull_vertices,
            },
        )
    }
}

/// The native record as the engine's own initializer fills it in, with both
/// callback pointers left unwired.  Bit-pattern fields spell the IEEE-754
/// encoding of the engine's documented defaults.
pub open spec fn spec_default_native() -> NativeParameters {
    NativeParameters {
        concavity: 0x3F50624DD2F1A9FC,  // 0.001
        alpha: 0x3FA999999999999A,  // 0.05
        beta: 0x3FA999999999999A,  // 0.05
        min_volume_per_ch: 0x3F1A36E2EB1C432D,  // 0.0001
        callback_enabled: false,
        logger_enabled: false,
        resolution: 100000,
        max_num_vertices_per_ch: 64,
        plane_downsampling: 4,
        convex_hull_downsampling: 4,
        pca: 0,
        mode: 0,
        convex_hull_approximation: 1,
        ocl_acceleration: 1,
        max_convex_hulls: 1024,
        project_hull_vertices: true,
    }
}

/// The engine's built-in default parameter record.
pub fn default_native() -> (r: NativeParameters)
    ensures
        r == spec_default_native(),
{
    NativeParameters {
        concavity: 0x3F50624DD2F1A9FC,
        alpha: 0x3FA999999999999A,
        beta: 0x3FA999999999999A,
        min_volume_per_ch: 0x3F1A36E2EB1C432D,
        callback_enabled: false,
        logger_enabled: false,
        resolution: 100000,
        max_num_vertices_per_ch: 64,
        plane_downsampling: 4,
        convex_hull_downsampling: 4,
        pca: 0,
        mode: 0,
        convex_hull_approximation: 1,
        ocl_acceleration: 1,
        max_convex_hulls: 1024,
        project_hull_vertices: true,
    }
}

impl Default for Parameters {
    /// The ergonomic defaults are obtained by decoding the engine's own
    /// default record, so they can never drift from the native library's.
    fn default() -> (r: Parameters)
        ensures
            Parameters::spec_from_native(spec_default_native()) == Ok::<Parameters, ParameterError>(r),
    {
        let n = default_native();
        match Parameters::from_native(&n) {
            Ok(p) => p,
            // The default record's mode discriminant is a known one, so
            // decoding it cannot fail.
            Err(_) => vstd::pervasive::unreached(),
        }
    }
}

/// Decoding then re-encoding is the identity on every native record whose
/// mode discriminant is known, provided each counter fits the narrower
/// ergonomic field and the flag fields hold the engine's own 0/1 encoding.
pub proof fn lemma_decode_then_encode(n: NativeParameters)
    requires
        n.mode == 0 || n.mode == 1,
        !n.callback_enabled,
        !n.logger_enabled,
        n.max_num_vertices_per_ch <= u16::MAX,
        n.plane_downsampling <= u8::MAX,
        n.convex_hull_downsampling <= u8::MAX,
        n.pca == 0 || n.pca == 1,
        n.convex_hull_approximation == 0 || n.convex_hull_approximation == 1,
        n.ocl_acceleration == 0 || n.ocl_acceleration == 1,
    ensures
        Parameters::spec_from_native(n) is Ok,
        Parameters::spec_from_native(n)->Ok_0.spec_to_native() == n,
{
}

/// Encoding then decoding gives every parameter block back unchanged.
pub proof fn lemma_encode_then_decode(p: Parameters)
    ensures
        Parameters::spec_from_native(p.spec_to_native()) == Ok::<Parameters, ParameterError>(p),
{
}

/// The engine's own default record decodes to the documented defaults, and
/// re-encoding that block gives the default record back, field for field.
pub proof fn lemma_default_round_trip()
    ensures
        Parameters::spec_from_native(spec_default_native()) is Ok,
        Parameters::spec_from_native(spec_default_native())->Ok_0.spec_to_native()
            == spec_default_native(),
{
    lemma_decode_then_encode(spec_default_native());
}

/// Decoding succeeds exactly for mode discriminants 0 and 1; every other
/// discriminant is reported back inside the error, and a successful decode
/// re-encodes to the discriminant it came from.
pub proof fn lemma_mode_decode_totality(n: NativeParameters)
    ensures
        Parameters::spec_from_native(n) is Ok <==> (n.mode == 0 || n.mode == 1),
        !(n.mode == 0 || n.mode == 1) ==> Parameters::spec_from_native(n) == Err::<
            Parameters,
            ParameterError,
        >(ParameterError::UnexpectedMode(n.mode)),
        Parameters::spec_from_native(n) is Ok ==> spec_encode_mode(
            Parameters::spec_from_native(n)->Ok_0.mode,
        ) == n.mode,
{
}

} // verus!
