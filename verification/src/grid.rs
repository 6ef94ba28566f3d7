//! The numbering of the mesh's vertices and triangles.
//!
//! Each face carries a square grid of `res` rows and `res` columns of
//! vertices. The vertices of all six faces are numbered in one run: face by
//! face, row by row, column by column. Faces share no vertices, so a vertex on
//! an edge of the cube exists once for each face that meets there. The squares
//! between neighbouring vertices of one face are numbered in the same manner
//! and each is cut into two triangles.
//!
//! Everything here is stated over unbounded integers; the executable code
//! that follows these definitions lives with the planet's shape.

use vstd::prelude::*;
use vstd::arithmetic::div_mod::lemma_div_denominator;
use vstd::arithmetic::div_mod::lemma_fundamental_div_mod;
use vstd::arithmetic::div_mod::lemma_fundamental_div_mod_converse;
use crate::face::CubeFace;
use crate::face::Point3;
use crate::face::Triple;
use crate::face::cross;
use crate::face::dot;
use crate::face::lemma_rotation_keeps_cross;
use crate::face::lemma_rotation_keeps_dot;
use crate::face::lemma_rotation_keeps_minus;
use crate::face::max_norm;
use crate::face::minus;

verus! {

/// Number of vertices on one face.
pub open spec fn face_size(res: int) -> int {
    res * res
}

/// Number of vertices of the whole mesh.
pub open spec fn vertex_count(res: int) -> int {
    6 * face_size(res)
}

/// Number of squares on one face.
pub open spec fn quads_per_face(res: int) -> int {
    (res - 1) * (res - 1)
}

/// Number of entries of the index buffer: three for each of the two
/// triangles of every square.
pub open spec fn index_count(res: int) -> int {
    6 * quads_per_face(res) * 6
}

/// Whether a row and a column name a vertex of a face's grid.
pub open spec fn on_grid(res: int, row: int, col: int) -> bool {
    0 <= row < res && 0 <= col < res
}

/// The number of the vertex at a row and column of a face.
pub open spec fn flat_index(res: int, face: int, row: int, col: int) -> int {
    face * face_size(res) + row * res + col
}

/// The face that vertex `i` lies on, by its position in the layout order.
pub open spec fn face_of(res: int, i: int) -> int {
    i / face_size(res)
}

/// The row of vertex `i` on its face.
pub open spec fn row_of(res: int, i: int) -> int {
    (i / res) % res
}

/// The column of vertex `i` on its face.
pub open spec fn col_of(res: int, i: int) -> int {
    i % res
}

/// The vertex beside vertex `i` that a normal is measured against: the next
/// one of the row, or the one before where `i` ends its row.
pub open spec fn horizontal_neighbor(res: int, i: int) -> int {
    if col_of(res, i) == res - 1 {
        i - 1
    } else {
        i + 1
    }
}

/// The vertex above or below vertex `i` that a normal is measured against:
/// the one in the next row, or the one in the row before where `i` lies in
/// the last row of its face.
pub open spec fn vertical_neighbor(res: int, i: int) -> int {
    if row_of(res, i) == res - 1 {
        i - res
    } else {
        i + res
    }
}

/// Where a grid vertex lies on the canonical face, scaled by `res - 1` so
/// that the coordinates are whole: the first two run from `-(res - 1)` to
/// `res - 1` with the column and the row, the third is `res - 1`.
pub open spec fn face_local_point(res: int, row: int, col: int) -> Triple {
    (2 * col - (res - 1), 2 * row - (res - 1), res - 1)
}

/// Where a grid vertex lies on the cube, scaled by `res - 1`. Its direction
/// from the origin is the direction of the vertex on the sphere.
pub open spec fn cube_point(res: int, face: CubeFace, row: int, col: int) -> Triple {
    face.rotate_spec(face_local_point(res, row, col))
}

/// Where vertex `i` lies on the cube, scaled by `res - 1`.
pub open spec fn site_point(res: int, i: int) -> Triple {
    cube_point(res, CubeFace::from_ordinal(face_of(res, i)), row_of(res, i), col_of(res, i))
}

/// Rows that a corner of a square lies below the square's own vertex. The
/// six corners are those of the two triangles, in the order of the index
/// buffer.
pub open spec fn corner_row(corner: int) -> int {
    if corner == 1 || corner == 3 || corner == 4 {
        1
    } else {
        0
    }
}

/// Columns that a corner of a square lies right of the square's own vertex.
pub open spec fn corner_col(corner: int) -> int {
    if corner == 2 || corner == 4 || corner == 5 {
        1
    } else {
        0
    }
}

/// The face that square `q` lies on.
pub open spec fn quad_face(res: int, q: int) -> int {
    q / quads_per_face(res)
}

/// The row of the vertex that square `q` hangs from.
pub open spec fn quad_row(res: int, q: int) -> int {
    (q / (res - 1)) % (res - 1)
}

/// The column of the vertex that square `q` hangs from.
pub open spec fn quad_col(res: int, q: int) -> int {
    q % (res - 1)
}

/// The number of the vertex that square `q` hangs from: its corner of least
/// row and column.
pub open spec fn quad_anchor(res: int, q: int) -> int {
    flat_index(res, quad_face(res, q), quad_row(res, q), quad_col(res, q))
}

/// Entry `k` of the index buffer. Six entries in a row belong to one square:
/// the triangle of its own vertex, the vertex below and the vertex to the
/// right, then the triangle of the vertex below, the vertex opposite and the
/// vertex to the right.
pub open spec fn index_entry(res: int, k: int) -> int {
    let q = k / 6;
    let corner = k % 6;
    flat_index(
        res,
        quad_face(res, q),
        quad_row(res, q) + corner_row(corner),
        quad_col(res, q) + corner_col(corner),
    )
}

/// What the layout records of one vertex.
#[derive(Clone, Copy, Debug, PartialEq, Eq, Structural)]
pub struct VertexSite {
    /// The face the vertex lies on.
    pub face: CubeFace,
    /// Its row on that face.
    pub row: u32,
    /// Its column on that face.
    pub col: u32,
    /// Its place on the cube, scaled by the resolution less one.
    pub point: Point3,
    /// The number of the vertex beside it that its normal is measured against.
    pub horizontal_neighbor: u32,
    /// The number of the vertex above or below it that its normal is measured
    /// against.
    pub vertical_neighbor: u32,
}

impl VertexSite {
    /// Whether this is the record of vertex `i` of a mesh of resolution `res`.
    pub open spec fn is_site(self, res: int, i: int) -> bool {
        &&& self.face.ordinal() == face_of(res, i)
        &&& self.row == row_of(res, i)
        &&& self.col == col_of(res, i)
        &&& self.point@ == cube_point(res, self.face, row_of(res, i), col_of(res, i))
        &&& self.horizontal_neighbor == horizontal_neighbor(res, i)
        &&& self.vertical_neighbor == vertical_neighbor(res, i)
    }
}

/// A vertex is found again from its number: numbering the vertex at a row
/// and column of a face and then reading off face, row and column gives
/// back the three.
pub proof fn lemma_flat_index_decomposes(res: int, face: int, row: int, col: int)
    requires
        res > 0,
        on_grid(res, row, col),
    ensures
        face_of(res, flat_index(res, face, row, col)) == face,
        row_of(res, flat_index(res, face, row, col)) == row,
        col_of(res, flat_index(res, face, row, col)) == col,
{
    let i = flat_index(res, face, row, col);
    let within = row * res + col;
    assert(0 <= within < res * res) by (nonlinear_arith)
        requires
            within == row * res + col,
            0 <= row < res,
            0 <= col < res,
    ;
    lemma_fundamental_div_mod_converse(i, res * res, face, within);
    let line = face * res + row;
    assert(i == line * res + col) by (nonlinear_arith)
        requires
            i == face * (res * res) + row * res + col,
            line == face * res + row,
    ;
    lemma_fundamental_div_mod_converse(i, res, line, col);
    lemma_fundamental_div_mod_converse(line, res, face, row);
}

/// Every number below the vertex count names one vertex: face, row and
/// column read off it are in range, and numbering them gives the number back.
pub proof fn lemma_index_recomposes(res: int, i: int)
    requires
        res > 0,
        0 <= i < vertex_count(res),
    ensures
        0 <= face_of(res, i) < 6,
        on_grid(res, row_of(res, i), col_of(res, i)),
        flat_index(res, face_of(res, i), row_of(res, i), col_of(res, i)) == i,
{
    let line = i / res;
    lemma_fundamental_div_mod(i, res);
    lemma_fundamental_div_mod(line, res);
    lemma_div_denominator(i, res, res);
    let face = line / res;
    assert(face == face_of(res, i));
    let row = line % res;
    let col = i % res;
    assert(i == face * (res * res) + row * res + col) by (nonlinear_arith)
        requires
            i == res * line + col,
            line == res * face + row,
    ;
    assert(0 <= face < 6) by (nonlinear_arith)
        requires
            i == face * (res * res) + row * res + col,
            0 <= i < 6 * (res * res),
            0 <= row < res,
            0 <= col < res,
            res > 0,
    ;
}

/// Every number below the count of squares names one square whose vertex is
/// not in the last row or column of its face.
pub proof fn lemma_quad_in_range(res: int, q: int)
    requires
        res >= 2,
        0 <= q < 6 * quads_per_face(res),
    ensures
        0 <= quad_face(res, q) < 6,
        0 <= quad_row(res, q) < res - 1,
        0 <= quad_col(res, q) < res - 1,
        q == quad_face(res, q) * quads_per_face(res) + quad_row(res, q) * (res - 1) + quad_col(
            res,
            q,
        ),
{
    let side = res - 1;
    assert(quads_per_face(res) == face_size(side));
    assert(6 * quads_per_face(res) == vertex_count(side));
    lemma_index_recomposes(side, q);
    assert(quad_face(res, q) == face_of(side, q));
    assert(quad_row(res, q) == row_of(side, q));
    assert(quad_col(res, q) == col_of(side, q));
}

/// The squares are numbered face by face, row by row, column by column.
pub proof fn lemma_quad_decomposes(res: int, face: int, row: int, col: int)
    requires
        res >= 2,
        0 <= row < res - 1,
        0 <= col < res - 1,
    ensures
        ({
            let q = face * quads_per_face(res) + row * (res - 1) + col;
            &&& quad_face(res, q) == face
            &&& quad_row(res, q) == row
            &&& quad_col(res, q) == col
        }),
{
    let side = res - 1;
    lemma_flat_index_decomposes(side, face, row, col);
    let q = flat_index(side, face, row, col);
    assert(quad_face(res, q) == face_of(side, q));
    assert(quad_row(res, q) == row_of(side, q));
    assert(quad_col(res, q) == col_of(side, q));
}

/// An entry of the index buffer is the number of the square's own vertex
/// plus a fixed step: none, a row, one, a row, a row and one, one.
pub proof fn lemma_index_entry_steps(res: int, k: int)
    requires
        res >= 2,
        0 <= k < index_count(res),
    ensures
        index_entry(res, k) == quad_anchor(res, k / 6) + corner_row(k % 6) * res + corner_col(
            k % 6,
        ),
{
    let q = k / 6;
    let corner = k % 6;
    let row = quad_row(res, q);
    let dr = corner_row(corner);
    assert((row + dr) * res == row * res + dr * res) by (nonlinear_arith);
}

/// Every entry of the index buffer names a vertex of the mesh.
pub proof fn lemma_index_entry_in_bounds(res: int, k: int)
    requires
        res >= 2,
        0 <= k < index_count(res),
    ensures
        0 <= index_entry(res, k) < vertex_count(res),
{
    lemma_index_entry_on_face(res, k);
    let q = k / 6;
    let corner = k % 6;
    let face = quad_face(res, q);
    let row = quad_row(res, q) + corner_row(corner);
    let col = quad_col(res, q) + corner_col(corner);
    lemma_flat_index_in_bounds(res, face, row, col);
}

/// Every entry of the index buffer names a vertex on the face of its square,
/// at the square's own row or the next and at its own column or the next.
pub proof fn lemma_index_entry_on_face(res: int, k: int)
    requires
        res >= 2,
        0 <= k < index_count(res),
    ensures
        0 <= quad_face(res, k / 6) < 6,
        face_of(res, index_entry(res, k)) == quad_face(res, k / 6),
        row_of(res, index_entry(res, k)) == quad_row(res, k / 6) + corner_row(k % 6),
        col_of(res, index_entry(res, k)) == quad_col(res, k / 6) + corner_col(k % 6),
        on_grid(res, row_of(res, index_entry(res, k)), col_of(res, index_entry(res, k))),
{
    let q = k / 6;
    let corner = k % 6;
    assert(0 <= q < 6 * quads_per_face(res));
    lemma_quad_in_range(res, q);
    lemma_flat_index_decomposes(
        res,
        quad_face(res, q),
        quad_row(res, q) + corner_row(corner),
        quad_col(res, q) + corner_col(corner),
    );
}

/// The three corners of a triangle are three different vertices.
pub proof fn lemma_triangle_corners_differ(res: int, t: int)
    requires
        res >= 2,
        0 <= t,
        3 * t + 2 < index_count(res),
    ensures
        index_entry(res, 3 * t) != index_entry(res, 3 * t + 1),
        index_entry(res, 3 * t) != index_entry(res, 3 * t + 2),
        index_entry(res, 3 * t + 1) != index_entry(res, 3 * t + 2),
{
    lemma_index_entry_steps(res, 3 * t);
    lemma_index_entry_steps(res, 3 * t + 1);
    lemma_index_entry_steps(res, 3 * t + 2);
    assert((3 * t) / 6 == (3 * t + 1) / 6);
    assert((3 * t) / 6 == (3 * t + 2) / 6);
    assert(0 * res == 0) by (nonlinear_arith);
    assert(1 * res == res) by (nonlinear_arith);
}

/// All triangles wind the same way: seen on the cube, the vector product of
/// a triangle's first two edges, taken from its first corner, points
/// against the outward normal of its face, with the same length for every
/// triangle of every face.
pub proof fn lemma_triangles_wind_alike(res: int, t: int)
    requires
        res >= 2,
        0 <= t,
        3 * t + 2 < index_count(res),
    ensures
        ({
            let a = site_point(res, index_entry(res, 3 * t));
            let b = site_point(res, index_entry(res, 3 * t + 1));
            let c = site_point(res, index_entry(res, 3 * t + 2));
            let face = CubeFace::from_ordinal(quad_face(res, (3 * t) / 6));
            dot(cross(minus(b, a), minus(c, a)), face.normal()) == -4
        }),
{
    let q = (3 * t) / 6;
    assert((3 * t + 1) / 6 == q && (3 * t + 2) / 6 == q);
    let first = (3 * t) % 6;
    assert(first == 0 || first == 3);
    assert((3 * t + 1) % 6 == first + 1 && (3 * t + 2) % 6 == first + 2);
    lemma_index_entry_on_face(res, 3 * t);
    lemma_index_entry_on_face(res, 3 * t + 1);
    lemma_index_entry_on_face(res, 3 * t + 2);
    let face = CubeFace::from_ordinal(quad_face(res, q));
    let row = quad_row(res, q);
    let col = quad_col(res, q);
    let la = face_local_point(res, row + corner_row(first), col + corner_col(first));
    let lb = face_local_point(res, row + corner_row(first + 1), col + corner_col(first + 1));
    let lc = face_local_point(res, row + corner_row(first + 2), col + corner_col(first + 2));
    let a = site_point(res, index_entry(res, 3 * t));
    let b = site_point(res, index_entry(res, 3 * t + 1));
    let c = site_point(res, index_entry(res, 3 * t + 2));
    assert(a == face.rotate_spec(la));
    assert(b == face.rotate_spec(lb));
    assert(c == face.rotate_spec(lc));
    let u = minus(lb, la);
    let v = minus(lc, la);
    assert(u == if first == 0 {
        (0int, 2int, 0int)
    } else {
        (2int, 0int, 0int)
    });
    assert(v == if first == 0 {
        (2int, 0int, 0int)
    } else {
        (2int, -2int, 0int)
    });
    assert(cross(u, v) == (0int, 0int, -4int)) by (nonlinear_arith)
        requires
            (u == (0int, 2int, 0int) && v == (2int, 0int, 0int)) || (u == (2int, 0int, 0int) && v
                == (2int, -2int, 0int)),
    ;
    lemma_rotation_keeps_minus(face, lb, la);
    lemma_rotation_keeps_minus(face, lc, la);
    lemma_rotation_keeps_cross(face, u, v);
    lemma_rotation_keeps_dot(face, cross(u, v), (0, 0, 1));
    assert(dot((0int, 0int, -4int), (0int, 0int, 1int)) == -4) by (nonlinear_arith);
}

/// The number of a grid vertex of one of the six faces is below the vertex
/// count.
pub proof fn lemma_flat_index_in_bounds(res: int, face: int, row: int, col: int)
    requires
        res > 0,
        0 <= face < 6,
        on_grid(res, row, col),
    ensures
        0 <= flat_index(res, face, row, col) < vertex_count(res),
        face * face_size(res) <= flat_index(res, face, row, col) < (face + 1) * face_size(res),
{
    assert(0 <= row * res + col < res * res) by (nonlinear_arith)
        requires
            0 <= row < res,
            0 <= col < res,
    ;
    assert(0 <= face * (res * res) && (face + 1) * (res * res) <= 6 * (res * res)
        && (face + 1) * (res * res) == face * (res * res) + res * res) by (nonlinear_arith)
        requires
            0 <= face < 6,
            res > 0,
    ;
}

/// The two vertices that a normal is measured against are vertices of the
/// mesh on the same face: the horizontal one in the same row, one column
/// away, the vertical one in the same column, one row away.
pub proof fn lemma_neighbors_stay_on_face(res: int, i: int)
    requires
        res >= 2,
        0 <= i < vertex_count(res),
    ensures
        0 <= horizontal_neighbor(res, i) < vertex_count(res),
        face_of(res, horizontal_neighbor(res, i)) == face_of(res, i),
        row_of(res, horizontal_neighbor(res, i)) == row_of(res, i),
        col_of(res, horizontal_neighbor(res, i)) == if col_of(res, i) == res - 1 {
            res - 2
        } else {
            col_of(res, i) + 1
        },
        0 <= vertical_neighbor(res, i) < vertex_count(res),
        face_of(res, vertical_neighbor(res, i)) == face_of(res, i),
        col_of(res, vertical_neighbor(res, i)) == col_of(res, i),
        row_of(res, vertical_neighbor(res, i)) == if row_of(res, i) == res - 1 {
            res - 2
        } else {
            row_of(res, i) + 1
        },
{
    lemma_index_recomposes(res, i);
    let face = face_of(res, i);
    let row = row_of(res, i);
    let col = col_of(res, i);
    let hcol = if col == res - 1 {
        res - 2
    } else {
        col + 1
    };
    let vrow = if row == res - 1 {
        res - 2
    } else {
        row + 1
    };
    assert((row + 1) * res == row * res + res) by (nonlinear_arith);
    assert((row - 1) * res == row * res - res) by (nonlinear_arith);
    assert(horizontal_neighbor(res, i) == flat_index(res, face, row, hcol));
    assert(vertical_neighbor(res, i) == flat_index(res, face, vrow, col));
    lemma_flat_index_decomposes(res, face, row, hcol);
    lemma_flat_index_decomposes(res, face, vrow, col);
    lemma_flat_index_in_bounds(res, face, row, hcol);
    lemma_flat_index_in_bounds(res, face, vrow, col);
}

/// Every grid vertex lies on the surface of the cube of half side
/// `res - 1`, in the plane of its face.
pub proof fn lemma_cube_point_on_surface(res: int, face: CubeFace, row: int, col: int)
    requires
        res >= 2,
        on_grid(res, row, col),
    ensures
        max_norm(cube_point(res, face, row, col)) == res - 1,
        dot(cube_point(res, face, row, col), face.normal()) == res - 1,
{
    let p = cube_point(res, face, row, col);
    let n = face.normal();
    assert(dot(p, n) == res - 1) by (nonlinear_arith)
        requires
            p == cube_point(res, face, row, col),
            n == face.normal(),
    ;
}

/// On one face, different grid vertices lie at different places of the cube.
pub proof fn lemma_cube_points_differ_on_face(
    res: int,
    face: CubeFace,
    row_a: int,
    col_a: int,
    row_b: int,
    col_b: int,
)
    requires
        cube_point(res, face, row_a, col_a) == cube_point(res, face, row_b, col_b),
    ensures
        row_a == row_b,
        col_a == col_b,
{
}

/// The record of a vertex is fixed by the resolution and the vertex's number.
pub proof fn lemma_site_is_unique(res: int, i: int, a: VertexSite, b: VertexSite)
    requires
        a.is_site(res, i),
        b.is_site(res, i),
    ensures
        a == b,
{
    crate::face::lemma_ordinal_numbers_the_faces(a.face, 0);
    crate::face::lemma_ordinal_numbers_the_faces(b.face, 0);
}

} // verus!
