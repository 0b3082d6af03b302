use orbit_scene::cube::{cube_mesh, CUBE_INDICES, CUBE_VERTICES};
use orbit_scene::sphere::{sphere_grid, sphere_indices, GridPoint, SPHERE_RINGS, SPHERE_SEGMENTS};

fn cross(a: [i32; 3], b: [i32; 3]) -> [i32; 3] {
    [a[1] * b[2] - a[2] * b[1], a[2] * b[0] - a[0] * b[2], a[0] * b[1] - a[1] * b[0]]
}

#[test]
fn cube_has_24_vertices_and_36_indices() {
    let m = cube_mesh();
    assert_eq!(m.vertices.len(), 24);
    assert_eq!(m.indices.len(), 36);
    assert_eq!(CUBE_VERTICES, 24);
    assert_eq!(CUBE_INDICES, 36);
    assert!(m.indices.iter().all(|&i| (i as usize) < 24));
}

#[test]
fn cube_corners_fit_half_the_edge() {
    let m = cube_mesh();
    let s = 0.5f32;
    for v in &m.vertices {
        for c in [v.position.x, v.position.y, v.position.z] {
            assert!(c == 1 || c == -1);
            let p = c as f32 * s / 2.0;
            assert!(p >= -s / 2.0 && p <= s / 2.0);
        }
        let d = v.position.x as i32 * v.normal.x as i32
            + v.position.y as i32 * v.normal.y as i32
            + v.position.z as i32 * v.normal.z as i32;
        assert_eq!(d, 1);
        assert!(v.u <= 1 && v.v <= 1);
    }
}

#[test]
fn cube_triangles_face_outward() {
    let m = cube_mesh();
    let pos = |i: u16| {
        let p = m.vertices[i as usize].position;
        [p.x as i32, p.y as i32, p.z as i32]
    };
    for t in m.indices.chunks(3) {
        let (a, b, c) = (pos(t[0]), pos(t[1]), pos(t[2]));
        let e1 = [b[0] - a[0], b[1] - a[1], b[2] - a[2]];
        let e2 = [c[0] - a[0], c[1] - a[1], c[2] - a[2]];
        let n = m.vertices[t[0] as usize].normal;
        assert_eq!(cross(e1, e2), [4 * n.x as i32, 4 * n.y as i32, 4 * n.z as i32]);
        assert_eq!(t[0] / 4, t[1] / 4);
        assert_eq!(t[1] / 4, t[2] / 4);
    }
}

#[test]
fn cube_faces_have_distinct_normals() {
    let m = cube_mesh();
    let mut normals: Vec<(i8, i8, i8)> = m.vertices.iter().map(|v| (v.normal.x, v.normal.y, v.normal.z)).collect();
    normals.dedup();
    assert_eq!(normals.len(), 6);
    assert_eq!(normals[0], (1, 0, 0));
    assert_eq!(normals[5], (0, 0, -1));
}

#[test]
fn sphere_grid_counts_rows_and_columns() {
    let g = sphere_grid(SPHERE_SEGMENTS, SPHERE_RINGS);
    assert_eq!(g.len(), 33 * 17);
    assert_eq!(g[0], GridPoint { ring: 0, segment: 0 });
    assert_eq!(g[32], GridPoint { ring: 0, segment: 32 });
    assert_eq!(g[33], GridPoint { ring: 1, segment: 0 });
    assert_eq!(g[560], GridPoint { ring: 16, segment: 32 });
}

#[test]
fn sphere_indices_stay_in_the_grid() {
    let idx = sphere_indices(SPHERE_SEGMENTS, SPHERE_RINGS);
    assert_eq!(idx.len(), 6 * 16 * 32);
    assert!(idx.iter().all(|&i| i < 33 * 17));
    assert_eq!(&idx[0..6], &[0, 33, 1, 1, 33, 34]);
    assert_eq!(&idx[6..12], &[1, 34, 2, 2, 34, 35]);
    let last = idx.len() - 6;
    assert_eq!(&idx[last..], &[526, 559, 527, 527, 559, 560]);
}

#[test]
fn smallest_sphere_layout() {
    let g = sphere_grid(1, 1);
    assert_eq!(g.len(), 4);
    assert_eq!(sphere_indices(1, 1), vec![0, 2, 1, 1, 2, 3]);
    assert_eq!(sphere_indices(3, 0), Vec::<u32>::new());
}

#[test]
fn sphere_grid_points_lie_at_the_radius() {
    let r = 1.5f32;
    let (segs, rings) = (8u16, 4u16);
    for p in sphere_grid(segs, rings) {
        let theta = p.ring as f32 * std::f32::consts::PI / rings as f32;
        let phi = p.segment as f32 * 2.0 * std::f32::consts::PI / segs as f32;
        let (x, y, z) = (r * theta.sin() * phi.cos(), r * theta.cos(), r * theta.sin() * phi.sin());
        assert!(((x * x + y * y + z * z).sqrt() - r).abs() < 1e-5);
    }
}

#[test]
fn sphere_triangles_wind_the_same_way() {
    let (segs, rings) = (5u16, 3u16);
    let grid = sphere_grid(segs, rings);
    let idx = sphere_indices(segs, rings);
    for t in idx.chunks(3) {
        let p: Vec<(i32, i32)> = t.iter().map(|&k| (grid[k as usize].ring as i32, grid[k as usize].segment as i32)).collect();
        let turn = (p[1].0 - p[0].0) * (p[2].1 - p[0].1) - (p[1].1 - p[0].1) * (p[2].0 - p[0].0);
        assert_eq!(turn, 1);
    }
}
