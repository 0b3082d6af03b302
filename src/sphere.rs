//! The layout of a latitude/longitude sphere mesh.
//!
//! The grid has `rings + 1` rows of `segments + 1` points: row `i` lies at
//! latitude `i * pi / rings` from the north pole, column `j` at longitude
//! `j * 2 pi / segments`, and its texture coordinates are
//! `(j / segments, i / rings)`. The first and last rows are the poles (each a
//! ring of points at one place) and the last column repeats the first, so the
//! texture wraps without a seam. Each grid cell is cut into two triangles.
use vstd::prelude::*;

verus! {

/// Default number of columns of cells.
pub const SPHERE_SEGMENTS: u16 = 32;

/// Default number of rows of cells.
pub const SPHERE_RINGS: u16 = 16;

/// A point of the grid: its row (latitude step) and column (longitude step).
#[derive(Clone, Copy, Debug, PartialEq, Eq, Structural)]
pub struct GridPoint {
    pub ring: u16,
    pub segment: u16,
}

/// Number of points of a grid of `segments` by `rings` cells.
pub open spec fn grid_len(segments: int, rings: int) -> int {
    (rings + 1) * (segments + 1)
}

/// Point `k` of the grid, row by row.
pub open spec fn grid_point(segments: int, k: int) -> (int, int) {
    (k / (segments + 1), k % (segments + 1))
}

/// Index `k` of the triangle list: corner `k % 6` of cell `k / 6`, cells row
/// by row. The cell at row `i`, column `j` has top-left point
/// `a = i * (segments + 1) + j` and bottom-left point `b = a + segments + 1`,
/// and is cut into triangles `(a, b, a + 1)` and `(a + 1, b, b + 1)`.
pub open spec fn cell_index(segments: int, k: int) -> int {
    let c = k / 6;
    let m = k % 6;
    let a = (c / segments) * (segments + 1) + c % segments;
    let b = a + segments + 1;
    if m == 0 {
        a
    } else if m == 1 || m == 4 {
        b
    } else if m == 2 || m == 3 {
        a + 1
    } else {
        b + 1
    }
}

/// The points of the grid, row by row.
pub fn sphere_grid(segments: u16, rings: u16) -> (r: Vec<GridPoint>)
    requires
        grid_len(segments as int, rings as int) <= usize::MAX,
    ensures
        r@.len() == grid_len(segments as int, rings as int),
        forall|k: int| 0 <= k < r@.len() ==> (#[trigger] r@[k]).ring == grid_point(segments as int, k).0
            && r@[k].segment == grid_point(segments as int, k).1,
        forall|k: int| 0 <= k < r@.len() ==> (#[trigger] r@[k]).ring <= rings && r@[k].segment <= segments,
{
    let ghost w = segments as int + 1;
    let mut r: Vec<GridPoint> = Vec::new();
    let mut i: u32 = 0;
    while i <= rings as u32
        invariant
            i <= rings + 1,
            w == segments + 1,
            grid_len(segments as int, rings as int) <= usize::MAX,
            r@.len() == i * w,
            forall|k: int| 0 <= k < r@.len() ==> (#[trigger] r@[k]).ring == k / w && r@[k].segment == k % w,
            forall|k: int| 0 <= k < r@.len() ==> (#[trigger] r@[k]).ring <= rings && r@[k].segment <= segments,
        decreases rings + 1 - i,
    {
        let mut j: u32 = 0;
        while j <= segments as u32
            invariant
                i <= rings,
                j <= segments + 1,
                w == segments + 1,
                r@.len() == i * w + j,
                forall|k: int| 0 <= k < r@.len() ==> (#[trigger] r@[k]).ring == k / w && r@[k].segment == k % w,
                forall|k: int| 0 <= k < r@.len() ==> (#[trigger] r@[k]).ring <= rings && r@[k].segment <= segments,
            decreases segments + 1 - j,
        {
            proof {
                vstd::arithmetic::div_mod::lemma_fundamental_div_mod_converse(i * w + j, w, i as int, j as int);
            }
            r.push(GridPoint { ring: i as u16, segment: j as u16 });
            j = j + 1;
        }
        assert(i * w + w == (i + 1) * w) by (nonlinear_arith);
        i = i + 1;
    }
    r
}

proof fn lemma_cell(segments: int, rings: int, i: int, j: int, m: int)
    requires
        segments >= 1,
        0 <= i < rings,
        0 <= j < segments,
        0 <= m < 6,
    ensures
        cell_index(segments, 6 * (i * segments + j) + m) == if m == 0 {
            i * (segments + 1) + j
        } else if m == 1 || m == 4 {
            i * (segments + 1) + j + segments + 1
        } else if m == 2 || m == 3 {
            i * (segments + 1) + j + 1
        } else {
            i * (segments + 1) + j + segments + 2
        },
        i * (segments + 1) + j + segments + 2 < grid_len(segments, rings),
{
    let c = i * segments + j;
    assert(c >= 0) by (nonlinear_arith)
        requires c == i * segments + j, i >= 0, j >= 0, segments >= 1;
    vstd::arithmetic::div_mod::lemma_fundamental_div_mod_converse(6 * c + m, 6, c, m);
    vstd::arithmetic::div_mod::lemma_fundamental_div_mod_converse(c, segments, i, j);
    assert(i * (segments + 1) + j + segments + 2 < grid_len(segments, rings)) by (nonlinear_arith)
        requires 0 <= i < rings, 0 <= j < segments, segments >= 1;
}

/// The triangle list: two triangles per cell, cells row by row; every index
/// names a point of the grid.
pub fn sphere_indices(segments: u16, rings: u16) -> (r: Vec<u32>)
    requires
        segments >= 1,
        grid_len(segments as int, rings as int) <= u32::MAX,
        6 * rings * segments <= usize::MAX,
    ensures
        r@.len() == 6 * rings * segments,
        forall|k: int| 0 <= k < r@.len() ==> #[trigger] r@[k] == cell_index(segments as int, k),
        forall|k: int| 0 <= k < r@.len() ==> #[trigger] r@[k] < grid_len(segments as int, rings as int),
{
    let ghost s = segments as int;
    let ghost n = grid_len(segments as int, rings as int);
    let mut r: Vec<u32> = Vec::new();
    let mut i: u32 = 0;
    while i < rings as u32
        invariant
            i <= rings,
            s == segments >= 1,
            n == grid_len(s, rings as int) <= u32::MAX,
            r@.len() == 6 * (i * s),
            forall|k: int| 0 <= k < r@.len() ==> #[trigger] r@[k] == cell_index(s, k),
            forall|k: int| 0 <= k < r@.len() ==> #[trigger] r@[k] < n,
        decreases rings - i,
    {
        let mut j: u32 = 0;
        while j < segments as u32
            invariant
                i < rings,
                j <= segments,
                s == segments >= 1,
                n == grid_len(s, rings as int) <= u32::MAX,
                r@.len() == 6 * (i * s + j),
                forall|k: int| 0 <= k < r@.len() ==> #[trigger] r@[k] == cell_index(s, k),
                forall|k: int| 0 <= k < r@.len() ==> #[trigger] r@[k] < n,
            decreases segments - j,
        {
            proof {
                lemma_cell(s, rings as int, i as int, j as int, 0);
                lemma_cell(s, rings as int, i as int, j as int, 1);
                lemma_cell(s, rings as int, i as int, j as int, 2);
                lemma_cell(s, rings as int, i as int, j as int, 3);
                lemma_cell(s, rings as int, i as int, j as int, 4);
                lemma_cell(s, rings as int, i as int, j as int, 5);
            }
            let a: u32 = i * (segments as u32 + 1) + j;
            let b: u32 = a + segments as u32 + 1;
            r.push(a);
            r.push(b);
            r.push(a + 1);
            r.push(a + 1);
            r.push(b);
            r.push(b + 1);
            j = j + 1;
        }
        assert(6 * (i * s + s) == 6 * ((i + 1) * s)) by (nonlinear_arith);
        i = i + 1;
    }
    assert(6 * (rings * s) == 6 * rings * segments) by (nonlinear_arith)
        requires s == segments;
    r
}

/// Triangle `t` of the list (indices `3t`, `3t + 1`, `3t + 2`) joins two
/// neighbouring rows and two neighbouring columns of the grid, and turns the
/// same way as every other triangle: in (row, column) coordinates its edge
/// cross product is 1.
pub open spec fn triangle_in_cell(segments: int, t: int) -> bool {
    let pa = grid_point(segments, cell_index(segments, 3 * t));
    let pb = grid_point(segments, cell_index(segments, 3 * t + 1));
    let pc = grid_point(segments, cell_index(segments, 3 * t + 2));
    let top = pa.0;
    let left = if pa.1 <= pb.1 { pa.1 } else { pb.1 };
    &&& top <= pb.0 <= top + 1 && top <= pc.0 <= top + 1
    &&& left <= pa.1 <= left + 1 && left <= pb.1 <= left + 1 && left <= pc.1 <= left + 1
    &&& (pb.0 - pa.0) * (pc.1 - pa.1) - (pb.1 - pa.1) * (pc.0 - pa.0) == 1
}

/// Every triangle of a sphere of `segments` by `rings` cells lies in one grid
/// cell, and all of them wind the same way, so back-face culling keeps the
/// same side of each.
pub proof fn lemma_sphere_winding(segments: int, rings: int, t: int)
    requires
        segments >= 1,
        rings >= 0,
        0 <= t < 2 * rings * segments,
    ensures
        triangle_in_cell(segments, t),
{
    let s = segments;
    let c = t / 2;
    let h = t % 2;
    assert(t == 2 * c + h && 0 <= h < 2 && 0 <= c < rings * s) by (nonlinear_arith)
        requires 0 <= t < 2 * rings * s, c == t / 2, h == t % 2;
    let i = c / s;
    let j = c % s;
    assert(c == i * s + j && 0 <= j < s && 0 <= i < rings) by (nonlinear_arith)
        requires 0 <= c < rings * s, s >= 1, i == c / s, j == c % s;
    assert(3 * t == 6 * (i * s + j) + 3 * h);
    lemma_cell(s, rings, i, j, 3 * h);
    lemma_cell(s, rings, i, j, 3 * h + 1);
    lemma_cell(s, rings, i, j, 3 * h + 2);
    let a = i * (s + 1) + j;
    vstd::arithmetic::div_mod::lemma_fundamental_div_mod_converse(a, s + 1, i, j);
    vstd::arithmetic::div_mod::lemma_fundamental_div_mod_converse(a + 1, s + 1, i, j + 1);
    assert(a + s + 1 == (i + 1) * (s + 1) + j) by (nonlinear_arith)
        requires a == i * (s + 1) + j;
    vstd::arithmetic::div_mod::lemma_fundamental_div_mod_converse(a + s + 1, s + 1, i + 1, j);
    vstd::arithmetic::div_mod::lemma_fundamental_div_mod_converse(a + s + 2, s + 1, i + 1, j + 1);
    let pa = grid_point(s, cell_index(s, 3 * t));
    let pb = grid_point(s, cell_index(s, 3 * t + 1));
    let pc = grid_point(s, cell_index(s, 3 * t + 2));
    if h == 0 {
        assert(pa == (i, j) && pb == (i + 1, j) && pc == (i, j + 1));
        assert((pb.0 - pa.0) * (pc.1 - pa.1) - (pb.1 - pa.1) * (pc.0 - pa.0) == 1) by (nonlinear_arith)
            requires pa == (i, j), pb == (i + 1, j), pc == (i, j + 1);
    } else {
        assert(pa == (i, j + 1) && pb == (i + 1, j) && pc == (i + 1, j + 1));
        assert((pb.0 - pa.0) * (pc.1 - pa.1) - (pb.1 - pa.1) * (pc.0 - pa.0) == 1) by (nonlinear_arith)
            requires pa == (i, j + 1), pb == (i + 1, j), pc == (i + 1, j + 1);
    }
}

} // verus!
