use sceneview::bits::{V2, V3, NEG_ONE_BITS, ONE_BITS, ZERO_BITS};
use sceneview::tangent::{solve, triangle_bases};

fn v3(x: f32, y: f32, z: f32) -> V3 {
    V3 { x: x.to_bits(), y: y.to_bits(), z: z.to_bits() }
}

fn v2(x: f32, y: f32) -> V2 {
    V2 { x: x.to_bits(), y: y.to_bits() }
}

fn f3(v: &V3) -> [f32; 3] {
    [f32::from_bits(v.x), f32::from_bits(v.y), f32::from_bits(v.z)]
}

fn close(a: [f32; 3], b: [f32; 3], tol: f32) -> bool {
    (a[0] - b[0]).abs() <= tol && (a[1] - b[1]).abs() <= tol && (a[2] - b[2]).abs() <= tol
}

#[test]
fn right_triangle_exact_basis() {
    // Identity UV map on the XY plane: T = +X, B = +Y exactly, and the
    // reconstructed normal is cross(B, T) = -Z.
    let positions = vec![v3(0.0, 0.0, 0.0), v3(1.0, 0.0, 0.0), v3(0.0, 1.0, 0.0)];
    let texcoords = vec![v2(0.0, 0.0), v2(1.0, 0.0), v2(0.0, 1.0)];
    let indices = vec![0u32, 1, 2];
    let (t, b, n) = solve(&positions, &texcoords, &indices);
    assert_eq!(t[0], v3(1.0, 0.0, 0.0));
    assert_eq!(t[1], v3(1.0, 0.0, 0.0));
    assert_eq!(t[2], v3(1.0, 0.0, 0.0));
    assert_eq!(b[0], v3(0.0, 1.0, 0.0));
    assert_eq!(n[0].z, NEG_ONE_BITS);
    assert_eq!(n[0].x, ZERO_BITS);
}

#[test]
fn scaled_uv_is_normalized() {
    // UVs scaled by 2 give a raw tangent of length 1/2; the output must
    // come back normalized to unit length.
    let positions = vec![v3(0.0, 0.0, 0.0), v3(1.0, 0.0, 0.0), v3(0.0, 1.0, 0.0)];
    let texcoords = vec![v2(0.0, 0.0), v2(2.0, 0.0), v2(0.0, 2.0)];
    let indices = vec![0u32, 1, 2];
    let (t, b, _n) = solve(&positions, &texcoords, &indices);
    assert_eq!(t[0], v3(1.0, 0.0, 0.0));
    assert_eq!(b[0], v3(0.0, 1.0, 0.0));
}

#[test]
fn shared_vertex_averages_contributions() {
    // Vertex 0 is shared by a triangle whose tangent is +X and one whose
    // tangent is +Z; its output is the normalized average of the two.
    let positions = vec![
        v3(0.0, 0.0, 0.0),
        v3(1.0, 0.0, 0.0),
        v3(0.0, 1.0, 0.0),
        v3(0.0, 0.0, 1.0),
        v3(0.0, 1.0, 0.0),
    ];
    let texcoords = vec![v2(0.0, 0.0), v2(1.0, 0.0), v2(0.0, 1.0), v2(1.0, 0.0), v2(0.0, 1.0)];
    let indices = vec![0u32, 1, 2, 0, 3, 4];
    let (t, _b, _n) = solve(&positions, &texcoords, &indices);
    let expected = ((glam::Vec3::X + glam::Vec3::Z) / glam::Vec3::splat(2.0)).normalize();
    assert!(close(f3(&t[0]), expected.to_array(), 1e-6));
    // The average is a genuinely new direction, not either contribution.
    assert!(!close(f3(&t[0]), [1.0, 0.0, 0.0], 1e-3));
    assert!(!close(f3(&t[0]), [0.0, 0.0, 1.0], 1e-3));
    // The unshared vertices keep their own triangle's direction.
    assert_eq!(t[1], v3(1.0, 0.0, 0.0));
    assert_eq!(t[3], v3(0.0, 0.0, 1.0));
}

#[test]
fn isolated_vertex_gets_fallback_axes() {
    // Vertex 3 belongs to no triangle: its outputs are exactly the
    // documented fallback axes +X, +Y, +Z.
    let positions = vec![
        v3(0.0, 0.0, 0.0),
        v3(1.0, 0.0, 0.0),
        v3(0.0, 1.0, 0.0),
        v3(7.0, 7.0, 7.0),
    ];
    let texcoords = vec![v2(0.0, 0.0), v2(1.0, 0.0), v2(0.0, 1.0), v2(0.5, 0.5)];
    let indices = vec![0u32, 1, 2];
    let (t, b, n) = solve(&positions, &texcoords, &indices);
    assert_eq!(t[3], V3 { x: ONE_BITS, y: ZERO_BITS, z: ZERO_BITS });
    assert_eq!(b[3], V3 { x: ZERO_BITS, y: ONE_BITS, z: ZERO_BITS });
    assert_eq!(n[3], V3 { x: ZERO_BITS, y: ZERO_BITS, z: ONE_BITS });
}

#[test]
fn singular_uv_triangle_is_skipped() {
    // All texcoords equal: the 2x2 system is singular, the triangle
    // contributes nothing, and every vertex falls back to the fixed axes.
    let positions = vec![v3(0.0, 0.0, 0.0), v3(1.0, 0.0, 0.0), v3(0.0, 1.0, 0.0)];
    let texcoords = vec![v2(0.25, 0.25), v2(0.25, 0.25), v2(0.25, 0.25)];
    let indices = vec![0u32, 1, 2];
    let bases = triangle_bases(&positions, &texcoords, &indices);
    assert_eq!(bases.len(), 1);
    assert!(bases[0].is_none());
    let (t, b, n) = solve(&positions, &texcoords, &indices);
    for i in 0..3 {
        assert_eq!(t[i], V3 { x: ONE_BITS, y: ZERO_BITS, z: ZERO_BITS });
        assert_eq!(b[i], V3 { x: ZERO_BITS, y: ONE_BITS, z: ZERO_BITS });
        assert_eq!(n[i], V3 { x: ZERO_BITS, y: ZERO_BITS, z: ONE_BITS });
    }
}

#[test]
fn texcoord_length_mismatch_is_treated_as_zero() {
    // A texcoord list shorter than the vertex list counts as all-zero UVs:
    // every solve is singular and every vertex falls back.
    let positions = vec![v3(0.0, 0.0, 0.0), v3(1.0, 0.0, 0.0), v3(0.0, 1.0, 0.0)];
    let texcoords = vec![v2(0.0, 0.0), v2(1.0, 0.0)];
    let indices = vec![0u32, 1, 2];
    let (t, _b, _n) = solve(&positions, &texcoords, &indices);
    assert_eq!(t[0], V3 { x: ONE_BITS, y: ZERO_BITS, z: ZERO_BITS });
    assert_eq!(t[1], V3 { x: ONE_BITS, y: ZERO_BITS, z: ZERO_BITS });
}

#[test]
fn reconstructed_normal_matches_cross_of_basis() {
    // For non-singular triangles the tangent and bitangent are linearly
    // independent and the normal candidate equals normalize(cross(B, T)).
    let positions = vec![v3(0.3, -1.2, 0.5), v3(1.7, 0.4, -0.6), v3(-0.9, 2.1, 1.3)];
    let texcoords = vec![v2(0.1, 0.9), v2(0.8, 0.2), v2(0.4, 0.7)];
    let indices = vec![0u32, 1, 2];
    let bases = triangle_bases(&positions, &texcoords, &indices);
    let (tan, bit) = bases[0].expect("non-singular UV mapping must solve");
    let t = glam::Vec3::from_array(f3(&tan));
    let b = glam::Vec3::from_array(f3(&bit));
    // Linear independence: the cross product is far from zero.
    assert!(t.cross(b).length() > 1e-6);
    let expected_n = b.cross(t).normalize();
    // Each vertex is touched only by this triangle, so its smoothed normal
    // is the normalized candidate itself.
    let (_ts, _bs, ns) = solve(&positions, &texcoords, &indices);
    let n0 = glam::Vec3::from_array(f3(&ns[0]));
    assert!((n0 - expected_n).length() < 1e-5);
    assert!((n0.length() - 1.0).abs() < 1e-5);
}

#[test]
fn cube_faces_have_uniform_basis_directions() {
    // A closed 8-vertex, 12-triangle cube with a planar UV map that is
    // non-singular on every face: the two triangles of each face solve to
    // the same tangent and bitangent directions.
    let corners: [[f32; 3]; 8] = [
        [-1.0, -1.0, -1.0],
        [1.0, -1.0, -1.0],
        [1.0, 1.0, -1.0],
        [-1.0, 1.0, -1.0],
        [-1.0, -1.0, 1.0],
        [1.0, -1.0, 1.0],
        [1.0, 1.0, 1.0],
        [-1.0, 1.0, 1.0],
    ];
    let positions: Vec<V3> = corners.iter().map(|c| v3(c[0], c[1], c[2])).collect();
    // Planar UVs: u = x + y, v = y + z. Restricted to any face this map
    // stays invertible, so all 12 solves succeed.
    let texcoords: Vec<V2> = corners.iter().map(|c| v2(c[0] + c[1], c[1] + c[2])).collect();
    let faces: [[u32; 4]; 6] = [
        [0, 1, 2, 3], // z = -1
        [5, 4, 7, 6], // z = +1
        [4, 0, 3, 7], // x = -1
        [1, 5, 6, 2], // x = +1
        [4, 5, 1, 0], // y = -1
        [3, 2, 6, 7], // y = +1
    ];
    let mut indices: Vec<u32> = Vec::new();
    for f in faces.iter() {
        indices.extend_from_slice(&[f[0], f[1], f[2]]);
        indices.extend_from_slice(&[f[0], f[2], f[3]]);
    }
    let bases = triangle_bases(&positions, &texcoords, &indices);
    assert_eq!(bases.len(), 12);
    for face in 0..6 {
        let (t0, b0) = bases[2 * face].expect("cube face solve");
        let (t1, b1) = bases[2 * face + 1].expect("cube face solve");
        assert!(close(f3(&t0), f3(&t1), 1e-5), "face {} tangent not uniform", face);
        assert!(close(f3(&b0), f3(&b1), 1e-5), "face {} bitangent not uniform", face);
    }
}

#[test]
fn basis_is_translation_invariant() {
    // The same triangle moved away from the origin, with shifted UVs: the
    // solve uses deltas only, so the basis stays exactly +X / +Y.
    let positions = vec![v3(1.0, 2.0, 3.0), v3(2.0, 2.0, 3.0), v3(1.0, 3.0, 3.0)];
    let texcoords = vec![v2(0.5, 0.25), v2(1.5, 0.25), v2(0.5, 1.25)];
    let indices = vec![0u32, 1, 2];
    let (t, b, _n) = solve(&positions, &texcoords, &indices);
    assert_eq!(t[0], v3(1.0, 0.0, 0.0));
    assert_eq!(b[0], v3(0.0, 1.0, 0.0));
}
