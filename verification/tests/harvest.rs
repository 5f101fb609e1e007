//! Flattening, request building, and harvesting hulls out of a finished run.

use vhacd::harvest;
use vhacd::prepare_compute;
use vhacd::submit;
use vhacd::ConvexHull;
use vhacd::ConvexHullIter;
use vhacd::Mesh;
use vhacd::Parameters;
use vhacd::Point3;
use vhacd::Triangle;
use vhacd::VHACD;

fn pt(x: f64, y: f64, z: f64) -> Point3 {
    Point3 { x: x.to_bits(), y: y.to_bits(), z: z.to_bits() }
}

fn tri(a: u32, b: u32, c: u32) -> Triangle {
    Triangle { a, b, c }
}

/// Eight corners of the unit cube and two triangles per face.
fn unit_cube() -> Mesh {
    let coords = vec![
        pt(-0.5, -0.5, -0.5),
        pt(0.5, -0.5, -0.5),
        pt(0.5, 0.5, -0.5),
        pt(-0.5, 0.5, -0.5),
        pt(-0.5, -0.5, 0.5),
        pt(0.5, -0.5, 0.5),
        pt(0.5, 0.5, 0.5),
        pt(-0.5, 0.5, 0.5),
    ];
    let indices = vec![
        tri(0, 1, 2),
        tri(0, 2, 3),
        tri(4, 6, 5),
        tri(4, 7, 6),
        tri(0, 5, 1),
        tri(0, 4, 5),
        tri(2, 6, 7),
        tri(2, 7, 3),
        tri(0, 3, 7),
        tri(0, 7, 4),
        tri(1, 5, 6),
        tri(1, 6, 2),
    ];
    Mesh { coords, indices }
}

#[test]
fn flattening_concatenates_in_order() {
    let mesh = Mesh {
        coords: vec![pt(1.0, 2.0, 3.0), pt(4.0, 5.0, 6.0)],
        indices: vec![tri(0, 1, 0)],
    };
    let flat = mesh.flat_coords();
    let expected: Vec<u64> = [1.0f64, 2.0, 3.0, 4.0, 5.0, 6.0]
        .iter()
        .map(|v| v.to_bits())
        .collect();
    assert_eq!(flat, expected);
    assert_eq!(mesh.flat_indices(), vec![0u32, 1, 0]);
}

#[test]
fn request_carries_narrowed_counts_and_encoded_params() {
    let mesh = unit_cube();
    let params = Parameters::default();
    let req = prepare_compute(&mesh, &params).unwrap();
    assert_eq!(req.point_count, 24);
    assert_eq!(req.points.len(), 24);
    assert_eq!(req.triangle_count, 12);
    assert_eq!(req.indices.len(), 36);
    assert_eq!(req.params, params.to_native());
}

#[test]
fn materialization_reads_three_scalars_per_point() {
    let hull = ConvexHull {
        points: [10.0f64, 20.0, 30.0, 40.0, 50.0, 60.0].iter().map(|v| v.to_bits()).collect(),
        triangles: vec![0, 1, 0, 1, 0, 1],
        volume: (1.0f64).to_bits(),
        center: [0, 0, 0],
    };
    let points = hull.points();
    assert_eq!(points, vec![pt(10.0, 20.0, 30.0), pt(40.0, 50.0, 60.0)]);
    let indices = hull.indices();
    assert_eq!(indices, vec![tri(0, 1, 0), tri(1, 0, 1)]);
}

#[test]
fn iterator_yields_each_hull_then_exhausts() {
    let mut h = VHACD::new();
    let mesh = Mesh { coords: vec![], indices: vec![] };
    submit(&mut h, &mesh, &Parameters::default()).unwrap();
    let hulls: Vec<ConvexHull> = (0..3u64)
        .map(|k| ConvexHull {
            points: vec![k, k + 1, k + 2],
            triangles: vec![0, 0, 0],
            volume: 0,
            center: [0, 0, 0],
        })
        .collect();
    h.complete(hulls);
    let mut iter = ConvexHullIter::new(&h);
    let mut yielded = 0u32;
    while let Some(mesh) = iter.next() {
        assert_eq!(
            mesh.coords,
            vec![Point3 { x: yielded as u64, y: yielded as u64 + 1, z: yielded as u64 + 2 }]
        );
        yielded += 1;
    }
    assert_eq!(yielded, 3);
    // Once exhausted, the iterator stays exhausted.
    assert!(iter.next().is_none());
    assert!(iter.next().is_none());
    h.release();
}

#[test]
fn unit_cube_hull_comes_back_whole() {
    let cube = unit_cube();
    let params = Parameters::default();
    let mut h = VHACD::new();
    let req = submit(&mut h, &cube, &params).unwrap();
    // The engine answers with a single hull: the cube itself, handed back
    // through its flat result buffers.
    h.complete(vec![ConvexHull {
        points: req.points.clone(),
        triangles: req.indices.clone(),
        volume: (1.0f64).to_bits(),
        center: [(0.0f64).to_bits(); 3],
    }]);
    assert!(h.is_ready());
    let out = harvest(&h);
    h.release();
    assert_eq!(out.len(), 1);
    let hull = &out[0];
    // The hull's point set is the eight cube corners, order-independent.
    assert_eq!(hull.coords.len(), 8);
    for corner in &cube.coords {
        assert!(hull.coords.contains(corner));
    }
    for i in 0..hull.coords.len() {
        for j in 0..i {
            assert_ne!(hull.coords[i], hull.coords[j]);
        }
    }
    // A cube-shaped hull over eight points triangulates into 12 triangles.
    assert_eq!(hull.indices.len(), 12);
}

#[test]
fn empty_mesh_is_a_normal_run() {
    let mesh = Mesh { coords: vec![], indices: vec![] };
    let mut h = VHACD::new();
    let req = submit(&mut h, &mesh, &Parameters::default()).unwrap();
    assert_eq!(req.point_count, 0);
    assert_eq!(req.triangle_count, 0);
    h.complete(vec![]);
    let out = harvest(&h);
    assert!(out.is_empty());
    h.release();
}

#[test]
fn degenerate_hull_yields_an_empty_mesh_not_an_error() {
    let mut h = VHACD::new();
    submit(&mut h, &Mesh { coords: vec![], indices: vec![] }, &Parameters::default()).unwrap();
    h.complete(vec![ConvexHull { points: vec![], triangles: vec![], volume: 0, center: [0, 0, 0] }]);
    let out = harvest(&h);
    assert_eq!(out.len(), 1);
    assert!(out[0].coords.is_empty());
    assert!(out[0].indices.is_empty());
    h.release();
}

#[test]
fn results_are_deep_copies_that_outlive_the_handle() {
    let mut cube = unit_cube();
    let params = Parameters::default();
    let mut h = VHACD::new();
    let req = submit(&mut h, &cube, &params).unwrap();
    h.complete(vec![ConvexHull {
        points: req.points.clone(),
        triangles: req.indices.clone(),
        volume: 0,
        center: [0, 0, 0],
    }]);
    let out = harvest(&h);
    // Releasing the handle tears down everything the engine owned.
    h.release();
    // Overwrite the caller-owned input buffers too.
    for p in cube.coords.iter_mut() {
        *p = pt(9.0, 9.0, 9.0);
    }
    for t in cube.indices.iter_mut() {
        *t = tri(7, 7, 7);
    }
    // The harvested geometry is self-contained and unaffected.
    let fresh = unit_cube();
    assert_eq!(out[0].coords, fresh.coords);
    assert_eq!(out[0].indices, fresh.indices);
}
