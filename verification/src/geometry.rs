//! Owned mesh geometry: vertices, indexed triangles, and the flattening into
//! the flat coordinate and index buffers the engine's compute call expects.

use vstd::prelude::*;

verus! {

/// One vertex.  Each coordinate is the IEEE-754 bit pattern of the 64-bit
/// scalar the engine works with; this layer only moves coordinates around.
#[derive(Clone, Copy, Debug, PartialEq, Eq, Structural)]
pub struct Point3 {
    pub x: u64,
    pub y: u64,
    pub z: u64,
}

/// One triangle: three indices into a vertex sequence.
#[derive(Clone, Copy, Debug, PartialEq, Eq, Structural)]
pub struct Triangle {
    pub a: u32,
    pub b: u32,
    pub c: u32,
}

/// A triangle mesh this layer owns outright: a vertex list plus triangles
/// indexing into it.  Used both for the input handed to a computation and
/// for each materialized output hull.
#[derive(Debug)]
pub struct Mesh {
    pub coords: Vec<Point3>,
    pub indices: Vec<Triangle>,
}

/// Each vertex's three coordinates, concatenated in order.
pub open spec fn flatten_points(s: Seq<Point3>) -> Seq<u64> {
    Seq::new(
        s.len() * 3,
        |i: int|
            if i % 3 == 0 {
                s[i / 3].x
            } else if i % 3 == 1 {
                s[i / 3].y
            } else {
                s[i / 3].z
            },
    )
}

/// Each triangle's three vertex indices, concatenated in order.
pub open spec fn flatten_triangles(s: Seq<Triangle>) -> Seq<u32> {
    Seq::new(
        s.len() * 3,
        |i: int|
            if i % 3 == 0 {
                s[i / 3].a
            } else if i % 3 == 1 {
                s[i / 3].b
            } else {
                s[i / 3].c
            },
    )
}

impl Mesh {
    /// Concatenates every vertex's three coordinates into one flat buffer.
    pub fn flat_coords(&self) -> (r: Vec<u64>)
        ensures
            r@ == flatten_points(self.coords@),
    {
        let n = self.coords.len();
        let mut buf: Vec<u64> = Vec::new();
        let mut i: usize = 0;
        while i < n
            invariant
                n == self.coords@.len(),
                i <= n,
                buf@.len() == i * 3,
                forall|j: int| 0 <= j < i * 3 ==> buf@[j] == flatten_points(self.coords@)[j],
            decreases n - i,
        {
            let p = self.coords[i];
            buf.push(p.x);
            buf.push(p.y);
            buf.push(p.z);
            i = i + 1;
        }
        proof {
            assert(buf@ =~= flatten_points(self.coords@));
        }
        buf
    }

    /// Concatenates every triangle's three indices into one flat buffer.
    pub fn flat_indices(&self) -> (r: Vec<u32>)
        ensures
            r@ == flatten_triangles(self.indices@),
    {
        let n = self.indices.len();
        let mut buf: Vec<u32> = Vec::new();
        let mut i: usize = 0;
        while i < n
            invariant
                n == self.indices@.len(),
                i <= n,
                buf@.len() == i * 3,
                forall|j: int| 0 <= j < i * 3 ==> buf@[j] == flatten_triangles(self.indices@)[j],
            decreases n - i,
        {
            let t = self.indices[i];
            buf.push(t.a);
            buf.push(t.b);
            buf.push(t.c);
            i = i + 1;
        }
        proof {
            assert(buf@ =~= flatten_triangles(self.indices@));
        }
        buf
    }
}

} // verus!
