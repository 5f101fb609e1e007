//! Raw per-hull geometry as the engine hands it out, and its materialization
//! into an owned mesh.

use crate::geometry::Mesh;
use crate::geometry::Point3;
use crate::geometry::Triangle;
use vstd::prelude::*;

verus! {

/// One hull's geometry the way the engine's retrieval call describes it: a
/// flat buffer of coordinate scalars read three at a time, a flat buffer of
/// vertex indices read three at a time, plus the hull's volume and center
/// (both carried as IEEE-754 bit patterns and passed through untouched).
#[derive(Debug)]
pub struct ConvexHull {
    pub points: Vec<u64>,
    pub triangles: Vec<u32>,
    pub volume: u64,
    pub center: [u64; 3],
}

/// The vertices a flat coordinate buffer spells out, three scalars each.
pub open spec fn group_points(s: Seq<u64>) -> Seq<Point3> {
    Seq::new(
        s.len() / 3,
        |i: int| Point3 { x: s[3 * i], y: s[3 * i + 1], z: s[3 * i + 2] },
    )
}

/// The triangles a flat index buffer spells out, three indices each.
pub open spec fn group_triangles(s: Seq<u32>) -> Seq<Triangle> {
    Seq::new(
        s.len() / 3,
        |i: int| Triangle { a: s[3 * i], b: s[3 * i + 1], c: s[3 * i + 2] },
    )
}

/// The mesh `m` is the deep copy of the raw hull `h`: every vertex and every
/// triangle read out of the buffers, none of the buffers retained.
pub open spec fn materializes(m: Mesh, h: ConvexHull) -> bool {
    m.coords@ == group_points(h.points@) && m.indices@ == group_triangles(h.triangles@)
}

impl ConvexHull {
    /// Copies every vertex out of the raw coordinate buffer into owned
    /// storage, three scalars at a time.
    pub fn points(&self) -> (r: Vec<Point3>)
        ensures
            r@ == group_points(self.points@),
    {
        let len = self.points.len();
        let n = len / 3;
        let mut buf: Vec<Point3> = Vec::new();
        let mut i: usize = 0;
        while i < n
            invariant
                len == self.points@.len(),
                n == len / 3,
                i <= n,
                buf@.len() == i,
                forall|j: int| 0 <= j < i ==> buf@[j] == group_points(self.points@)[j],
            decreases n - i,
        {
            proof {
                assert(3 * i + 2 < len);
            }
            let off = i * 3;
            let p = Point3 {
                x: self.points[off],
                y: self.points[off + 1],
                z: self.points[off + 2],
            };
            buf.push(p);
            i = i + 1;
        }
        proof {
            assert(buf@ =~= group_points(self.points@));
        }
        buf
    }

    /// Copies every triangle out of the raw index buffer into owned storage,
    /// three indices at a time.
    pub fn indices(&self) -> (r: Vec<Triangle>)
        ensures
            r@ == group_triangles(self.triangles@),
    {
        let len = self.triangles.len();
        let n = len / 3;
        let mut buf: Vec<Triangle> = Vec::new();
        let mut i: usize = 0;
        while i < n
            invariant
                len == self.triangles@.len(),
                n == len / 3,
                i <= n,
                buf@.len() == i,
                forall|j: int| 0 <= j < i ==> buf@[j] == group_triangles(self.triangles@)[j],
            decreases n - i,
        {
            proof {
                assert(3 * i + 2 < len);
            }
            let off = i * 3;
            let t = Triangle {
                a: self.triangles[off],
                b: self.triangles[off + 1],
                c: self.triangles[off + 2],
            };
            buf.push(t);
            i = i + 1;
        }
        proof {
            assert(buf@ =~= group_triangles(self.triangles@));
        }
        buf
    }

    /// Materializes the whole hull as one owned mesh: a deep copy of both
    /// buffers, valid for as long as the caller keeps it, however the
    /// engine's storage fares afterwards.
    pub fn to_mesh(&self) -> (r: Mesh)
        ensures
            materializes(r, *self),
    {
        Mesh { coords: self.points(), indices: self.indices() }
    }
}

/// Grouping a buffer back into vertices inverts flattening a vertex list:
/// what goes into the engine's flat form comes back out unchanged.
pub proof fn lemma_flatten_then_group_points(s: Seq<Point3>)
    ensures
        group_points(crate::geometry::flatten_points(s)) == s,
{
    let f = crate::geometry::flatten_points(s);
    assert forall|i: int| 0 <= i < s.len() implies group_points(f)[i] == s[i] by {
        assert(f[3 * i] == s[i].x);
        assert(f[3 * i + 1] == s[i].y);
        assert(f[3 * i + 2] == s[i].z);
    }
    assert(group_points(f) =~= s);
}

/// Grouping a buffer back into triangles inverts flattening a triangle list.
pub proof fn lemma_flatten_then_group_triangles(s: Seq<Triangle>)
    ensures
        group_triangles(crate::geometry::flatten_triangles(s)) == s,
{
    let f = crate::geometry::flatten_triangles(s);
    assert forall|i: int| 0 <= i < s.len() implies group_triangles(f)[i] == s[i] by {
        assert(f[3 * i] == s[i].a);
        assert(f[3 * i + 1] == s[i].b);
        assert(f[3 * i + 2] == s[i].c);
    }
    assert(group_triangles(f) =~= s);
}

} // verus!
