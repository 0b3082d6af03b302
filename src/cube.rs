//! The layout of a cube mesh: six faces of four corners each (24 vertices, so
//! that each face has its own normal and texture square) and two triangles per
//! face (36 indices).
//!
//! Corners are given as sign triples in `{-1, 1}^3`; a cube of edge `s` places
//! a corner at `sign * s / 2`, so every position lies in `[-s/2, s/2]^3`.
use vstd::prelude::*;

verus! {

pub const CUBE_FACES: usize = 6;

pub const CUBE_VERTICES: usize = 24;

pub const CUBE_INDICES: usize = 36;

/// A small integer vector: a corner's signs, a face normal or a face axis.
#[derive(Clone, Copy, Debug, PartialEq, Eq, Structural)]
pub struct Signs {
    pub x: i8,
    pub y: i8,
    pub z: i8,
}

/// One vertex of the cube layout.
#[derive(Clone, Copy, Debug, PartialEq, Eq, Structural)]
pub struct CubeVertex {
    /// The corner, each component -1 or 1.
    pub position: Signs,
    /// The outward normal of the face the vertex belongs to.
    pub normal: Signs,
    /// Texture coordinates, each 0 or 1.
    pub u: u8,
    pub v: u8,
}

pub struct CubeMesh {
    pub vertices: Vec<CubeVertex>,
    pub indices: Vec<u16>,
}

pub open spec fn signs(x: int, y: int, z: int) -> Signs {
    Signs { x: x as i8, y: y as i8, z: z as i8 }
}

/// Outward normal of face `f`: +x, -x, +y, -y, +z, -z.
pub open spec fn face_normal(f: int) -> Signs {
    if f == 0 {
        signs(1, 0, 0)
    } else if f == 1 {
        signs(-1, 0, 0)
    } else if f == 2 {
        signs(0, 1, 0)
    } else if f == 3 {
        signs(0, -1, 0)
    } else if f == 4 {
        signs(0, 0, 1)
    } else {
        signs(0, 0, -1)
    }
}

/// The direction in which the texture's first coordinate grows on face `f`.
pub open spec fn face_tangent(f: int) -> Signs {
    if f == 0 {
        signs(0, 0, -1)
    } else if f == 1 {
        signs(0, 0, 1)
    } else if f == 5 {
        signs(-1, 0, 0)
    } else {
        signs(1, 0, 0)
    }
}

/// The direction in which the texture's second coordinate grows on face `f`.
pub open spec fn face_bitangent(f: int) -> Signs {
    if f == 2 {
        signs(0, 0, -1)
    } else if f == 3 {
        signs(0, 0, 1)
    } else {
        signs(0, 1, 0)
    }
}

/// Texture coordinates of corner `c` of a face, counter-clockwise seen from
/// outside: (0,0), (1,0), (1,1), (0,1).
pub open spec fn corner_u(c: int) -> int {
    if c == 1 || c == 2 { 1 } else { 0 }
}

pub open spec fn corner_v(c: int) -> int {
    if c == 2 || c == 3 { 1 } else { 0 }
}

/// `x` when `positive`, else `-x`.
pub open spec fn signed(positive: bool, x: i8) -> int {
    if positive { x as int } else { -x }
}

/// Vertex `k` of the layout: corner `k % 4` of face `k / 4`, at
/// `normal +- tangent +- bitangent`, the signs taken from the corner's
/// texture coordinates (minus for 0, plus for 1).
pub open spec fn cube_vertex(k: int) -> CubeVertex {
    let f = k / 4;
    let c = k % 4;
    let n = face_normal(f);
    let t = face_tangent(f);
    let b = face_bitangent(f);
    let pu = corner_u(c) == 1;
    let pv = corner_v(c) == 1;
    CubeVertex {
        position: signs(
            n.x + signed(pu, t.x) + signed(pv, b.x),
            n.y + signed(pu, t.y) + signed(pv, b.y),
            n.z + signed(pu, t.z) + signed(pv, b.z),
        ),
        normal: n,
        u: corner_u(c) as u8,
        v: corner_v(c) as u8,
    }
}

/// The face corner named by position `m` of a face's six indices: the face is
/// cut into triangles (0, 1, 2) and (0, 2, 3).
pub open spec fn triangle_corner(m: int) -> int {
    if m == 0 || m == 3 {
        0
    } else if m == 1 {
        1
    } else if m == 2 || m == 4 {
        2
    } else {
        3
    }
}

/// Index `k` of the layout: face `k / 6`, and a corner of it.
pub open spec fn cube_index(k: int) -> int {
    4 * (k / 6) + triangle_corner(k % 6)
}

pub open spec fn edge(a: Signs, b: Signs) -> (int, int, int) {
    (a.x - b.x, a.y - b.y, a.z - b.z)
}

pub open spec fn cross(a: (int, int, int), b: (int, int, int)) -> (int, int, int) {
    (a.1 * b.2 - a.2 * b.1, a.2 * b.0 - a.0 * b.2, a.0 * b.1 - a.1 * b.0)
}

pub open spec fn dot(a: Signs, b: Signs) -> int {
    a.x * b.x + a.y * b.y + a.z * b.z
}

pub open spec fn is_sign(x: i8) -> bool {
    x == 1 || x == -1
}

fn face_axes(f: usize) -> (r: (Signs, Signs, Signs))
    requires
        f < 6,
    ensures
        r.0 == face_normal(f as int),
        r.1 == face_tangent(f as int),
        r.2 == face_bitangent(f as int),
{
    let (n, t, b) = if f == 0 {
        ((1i8, 0i8, 0i8), (0i8, 0i8, -1i8), (0i8, 1i8, 0i8))
    } else if f == 1 {
        ((-1, 0, 0), (0, 0, 1), (0, 1, 0))
    } else if f == 2 {
        ((0, 1, 0), (1, 0, 0), (0, 0, -1))
    } else if f == 3 {
        ((0, -1, 0), (1, 0, 0), (0, 0, 1))
    } else if f == 4 {
        ((0, 0, 1), (1, 0, 0), (0, 1, 0))
    } else {
        ((0, 0, -1), (-1, 0, 0), (0, 1, 0))
    };
    (Signs { x: n.0, y: n.1, z: n.2 }, Signs { x: t.0, y: t.1, z: t.2 }, Signs { x: b.0, y: b.1, z: b.2 })
}

/// Corner `c` of face `f`.
fn face_corner(f: usize, c: usize) -> (r: CubeVertex)
    requires
        f < 6,
        c < 4,
    ensures
        r == cube_vertex(4 * f + c),
{
    let (n, t, b) = face_axes(f);
    let u: u8 = if c == 1 || c == 2 { 1 } else { 0 };
    let v: u8 = if c == 2 || c == 3 { 1 } else { 0 };
    assert((4 * f + c) / 4 == f && (4 * f + c) % 4 == c) by (nonlinear_arith)
        requires f < 6, c < 4;
    let position = Signs {
        x: n.x + (if u == 1 { t.x } else { -t.x }) + (if v == 1 { b.x } else { -b.x }),
        y: n.y + (if u == 1 { t.y } else { -t.y }) + (if v == 1 { b.y } else { -b.y }),
        z: n.z + (if u == 1 { t.z } else { -t.z }) + (if v == 1 { b.z } else { -b.z }),
    };
    CubeVertex { position, normal: n, u, v }
}

/// The cube layout: 24 vertices, face by face, and 36 indices, two triangles
/// per face, each index naming a vertex of its own face.
pub fn cube_mesh() -> (r: CubeMesh)
    ensures
        r.vertices@.len() == CUBE_VERTICES,
        r.indices@.len() == CUBE_INDICES,
        forall|k: int| 0 <= k < 24 ==> r.vertices@[k] == cube_vertex(k),
        forall|k: int| 0 <= k < 36 ==> r.indices@[k] == cube_index(k),
        forall|k: int| 0 <= k < 36 ==> r.indices@[k] < CUBE_VERTICES,
{
    let mut vertices: Vec<CubeVertex> = Vec::new();
    let mut indices: Vec<u16> = Vec::new();
    let mut f: usize = 0;
    while f < CUBE_FACES
        invariant
            f <= 6,
            vertices@.len() == 4 * f,
            indices@.len() == 6 * f,
            forall|k: int| 0 <= k < 4 * f ==> vertices@[k] == cube_vertex(k),
            forall|k: int| 0 <= k < 6 * f ==> indices@[k] == cube_index(k),
        decreases 6 - f,
    {
        let mut c: usize = 0;
        while c < 4
            invariant
                f < 6,
                c <= 4,
                vertices@.len() == 4 * f + c,
                forall|k: int| 0 <= k < 4 * f + c ==> vertices@[k] == cube_vertex(k),
            decreases 4 - c,
        {
            let corner = face_corner(f, c);
            vertices.push(corner);
            c = c + 1;
        }
        let base: u16 = 4 * f as u16;
        let corners: [u16; 6] = [0, 1, 2, 0, 2, 3];
        let mut m: usize = 0;
        while m < 6
            invariant
                f < 6,
                m <= 6,
                base == 4 * f,
                corners@ == seq![0u16, 1, 2, 0, 2, 3],
                indices@.len() == 6 * f + m,
                forall|k: int| 0 <= k < 6 * f + m ==> indices@[k] == cube_index(k),
            decreases 6 - m,
        {
            let k: usize = 6 * f + m;
            assert(k / 6 == f && k % 6 == m) by (nonlinear_arith)
                requires k == 6 * f + m, m < 6;
            assert(corners@[m as int] == triangle_corner(m as int));
            indices.push(base + corners[m]);
            m = m + 1;
        }
        f = f + 1;
    }
    proof {
        assert forall|k: int| 0 <= k < 36 implies indices@[k] < CUBE_VERTICES by {
            assert(k / 6 < 6 && 0 <= k % 6 < 6) by (nonlinear_arith)
                requires 0 <= k < 36;
            assert(indices@[k] == cube_index(k));
            assert(triangle_corner(k % 6) <= 3);
        }
    }
    CubeMesh { vertices, indices }
}

/// Vertex `k` is a corner with every component -1 or 1, on the face its
/// normal points out of, with texture coordinates 0 or 1.
pub open spec fn corner_on_face(k: int) -> bool {
    let w = cube_vertex(k);
    is_sign(w.position.x) && is_sign(w.position.y) && is_sign(w.position.z)
        && dot(w.position, w.normal) == 1 && dot(w.normal, w.normal) == 1
        && (w.u == 0 || w.u == 1) && (w.v == 0 || w.v == 1)
}

/// Triangle `t` (indices `3t`, `3t + 1`, `3t + 2`) lies on one face and turns
/// counter-clockwise seen from outside: its edge cross product is four times
/// the face's outward normal.
pub open spec fn triangle_outward(t: int) -> bool {
    let a = cube_index(3 * t);
    let b = cube_index(3 * t + 1);
    let c = cube_index(3 * t + 2);
    let n = cube_vertex(a).normal;
    &&& a / 4 == b / 4 && b / 4 == c / 4
    &&& cube_vertex(b).normal == n && cube_vertex(c).normal == n
    &&& cross(edge(cube_vertex(b).position, cube_vertex(a).position),
        edge(cube_vertex(c).position, cube_vertex(a).position)) == (4 * n.x, 4 * n.y, 4 * n.z)
}

proof fn lemma_face(f: int)
    requires
        0 <= f < 6,
    ensures
        corner_on_face(4 * f),
        corner_on_face(4 * f + 1),
        corner_on_face(4 * f + 2),
        corner_on_face(4 * f + 3),
        triangle_outward(2 * f),
        triangle_outward(2 * f + 1),
{
    if f == 0 {
        assert(triangle_outward(0) && triangle_outward(1)) by (nonlinear_arith);
        assert(corner_on_face(0) && corner_on_face(1) && corner_on_face(2) && corner_on_face(3))
            by (nonlinear_arith);
    } else if f == 1 {
        assert(triangle_outward(2) && triangle_outward(3)) by (nonlinear_arith);
        assert(corner_on_face(4) && corner_on_face(5) && corner_on_face(6) && corner_on_face(7))
            by (nonlinear_arith);
    } else if f == 2 {
        assert(triangle_outward(4) && triangle_outward(5)) by (nonlinear_arith);
        assert(corner_on_face(8) && corner_on_face(9) && corner_on_face(10) && corner_on_face(11))
            by (nonlinear_arith);
    } else if f == 3 {
        assert(triangle_outward(6) && triangle_outward(7)) by (nonlinear_arith);
        assert(corner_on_face(12) && corner_on_face(13) && corner_on_face(14) && corner_on_face(15))
            by (nonlinear_arith);
    } else if f == 4 {
        assert(triangle_outward(8) && triangle_outward(9)) by (nonlinear_arith);
        assert(corner_on_face(16) && corner_on_face(17) && corner_on_face(18) && corner_on_face(19))
            by (nonlinear_arith);
    } else {
        assert(triangle_outward(10) && triangle_outward(11)) by (nonlinear_arith);
        assert(corner_on_face(20) && corner_on_face(21) && corner_on_face(22) && corner_on_face(23))
            by (nonlinear_arith);
    }
}

/// The cube layout has 24 vertices and 36 indices (12 triangles); every index
/// names a vertex; every corner is a sign triple, so a cube of edge `s` keeps
/// every position in `[-s/2, s/2]^3`; and every triangle lies on one face and
/// faces outward.
pub proof fn lemma_cube_layout()
    ensures
        forall|k: int| 0 <= k < 24 ==> #[trigger] corner_on_face(k),
        forall|k: int| 0 <= k < 36 ==> 0 <= #[trigger] cube_index(k) < 24,
        forall|t: int| 0 <= t < 12 ==> #[trigger] triangle_outward(t),
{
    assert forall|k: int| 0 <= k < 24 implies #[trigger] corner_on_face(k) by {
        let f = k / 4;
        assert(k == 4 * f + k % 4 && 0 <= f < 6 && 0 <= k % 4 < 4) by (nonlinear_arith)
            requires 0 <= k < 24, f == k / 4;
        lemma_face(f);
        if k % 4 == 0 {
            assert(k == 4 * f);
        } else if k % 4 == 1 {
            assert(k == 4 * f + 1);
        } else if k % 4 == 2 {
            assert(k == 4 * f + 2);
        } else {
            assert(k == 4 * f + 3);
        }
    }
    assert forall|k: int| 0 <= k < 36 implies 0 <= #[trigger] cube_index(k) < 24 by {
        assert(0 <= k / 6 < 6 && 0 <= k % 6 < 6) by (nonlinear_arith)
            requires 0 <= k < 36;
    }
    assert forall|t: int| 0 <= t < 12 implies #[trigger] triangle_outward(t) by {
        let f = t / 2;
        assert(t == 2 * f + t % 2 && 0 <= f < 6 && 0 <= t % 2 < 2) by (nonlinear_arith)
            requires 0 <= t < 12, f == t / 2;
        lemma_face(f);
        if t % 2 == 0 {
            assert(t == 2 * f);
        } else {
            assert(t == 2 * f + 1);
        }
    }
}

} // verus!
