//! The six faces of the cube and the rotations that place them.
//!
//! Every face is the image of one canonical face, the one that looks along
//! the positive z axis, under a rotation by a multiple of a quarter turn.
//! Such a rotation permutes the coordinates and changes signs, so it acts on
//! the integer lattice exactly.

use vstd::prelude::*;

verus! {

/// A vector with integer coordinates, as contracts speak of it.
pub type Triple = (int, int, int);

/// Scalar product of two vectors.
pub open spec fn dot(a: Triple, b: Triple) -> int {
    a.0 * b.0 + a.1 * b.1 + a.2 * b.2
}

/// Vector product of two vectors.
pub open spec fn cross(a: Triple, b: Triple) -> Triple {
    (a.1 * b.2 - a.2 * b.1, a.2 * b.0 - a.0 * b.2, a.0 * b.1 - a.1 * b.0)
}

/// The displacement that leads from `b` to `a`.
pub open spec fn minus(a: Triple, b: Triple) -> Triple {
    (a.0 - b.0, a.1 - b.1, a.2 - b.2)
}

/// Absolute value of an integer.
pub open spec fn magnitude(a: int) -> int {
    if a < 0 {
        -a
    } else {
        a
    }
}

/// The largest absolute value among the coordinates of a vector. The surface
/// of the cube of half side `h` centred on the origin is where this is `h`.
pub open spec fn max_norm(a: Triple) -> int {
    let x = magnitude(a.0);
    let y = magnitude(a.1);
    let z = magnitude(a.2);
    if x >= y && x >= z {
        x
    } else if y >= z {
        y
    } else {
        z
    }
}

/// A point of the integer lattice.
#[derive(Clone, Copy, Debug, PartialEq, Eq, Structural)]
pub struct Point3 {
    pub x: i32,
    pub y: i32,
    pub z: i32,
}

impl View for Point3 {
    type V = Triple;

    open spec fn view(&self) -> Triple {
        (self.x as int, self.y as int, self.z as int)
    }
}

impl Point3 {
    /// Whether every coordinate has a negative that is representable.
    pub open spec fn negatable(self) -> bool {
        self.x > i32::MIN && self.y > i32::MIN && self.z > i32::MIN
    }
}

/// A face of the cube, named by the axis along which it looks outward.
///
/// The variants stand in the order in which a mesh lays the faces out.
#[derive(Clone, Copy, Debug, PartialEq, Eq, Structural)]
pub enum CubeFace {
    /// The canonical face; its rotation is the identity.
    PosZ,
    /// A quarter turn about the x axis.
    NegY,
    /// A quarter turn about the x axis, the other way.
    PosY,
    /// A half turn about the x axis.
    NegZ,
    /// A quarter turn about the y axis.
    PosX,
    /// A quarter turn about the y axis, the other way.
    NegX,
}

impl CubeFace {
    /// Position of the face in the layout order, from 0 to 5.
    pub open spec fn ordinal(self) -> int {
        match self {
            CubeFace::PosZ => 0,
            CubeFace::NegY => 1,
            CubeFace::PosY => 2,
            CubeFace::NegZ => 3,
            CubeFace::PosX => 4,
            CubeFace::NegX => 5,
        }
    }

    /// The face at a position of the layout order. Positions past the last
    /// face are given the last face.
    pub open spec fn from_ordinal(i: int) -> CubeFace {
        if i <= 0 {
            CubeFace::PosZ
        } else if i == 1 {
            CubeFace::NegY
        } else if i == 2 {
            CubeFace::PosY
        } else if i == 3 {
            CubeFace::NegZ
        } else if i == 4 {
            CubeFace::PosX
        } else {
            CubeFace::NegX
        }
    }

    /// The image of a vector under the rotation of this face.
    pub open spec fn rotate_spec(self, v: Triple) -> Triple {
        match self {
            CubeFace::PosZ => (v.0, v.1, v.2),
            CubeFace::NegY => (v.0, -v.2, v.1),
            CubeFace::PosY => (v.0, v.2, -v.1),
            CubeFace::NegZ => (v.0, -v.1, -v.2),
            CubeFace::PosX => (v.2, v.1, -v.0),
            CubeFace::NegX => (-v.2, v.1, v.0),
        }
    }

    /// The unit vector along which this face looks outward: the image of the
    /// canonical face's normal.
    pub open spec fn normal(self) -> Triple {
        self.rotate_spec((0, 0, 1))
    }

    /// Position of the face in the layout order.
    pub fn index(self) -> (r: u32)
        ensures
            r == self.ordinal(),
            r < 6,
    {
        match self {
            CubeFace::PosZ => 0,
            CubeFace::NegY => 1,
            CubeFace::PosY => 2,
            CubeFace::NegZ => 3,
            CubeFace::PosX => 4,
            CubeFace::NegX => 5,
        }
    }

    /// The face at position `i` of the layout order, if there is one.
    pub fn from_index(i: u32) -> (r: Option<CubeFace>)
        ensures
            i < 6 ==> r == Some(CubeFace::from_ordinal(i as int)),
            i < 6 ==> r.unwrap().ordinal() == i,
            i >= 6 ==> r.is_none(),
    {
        if i == 0 {
            Some(CubeFace::PosZ)
        } else if i == 1 {
            Some(CubeFace::NegY)
        } else if i == 2 {
            Some(CubeFace::PosY)
        } else if i == 3 {
            Some(CubeFace::NegZ)
        } else if i == 4 {
            Some(CubeFace::PosX)
        } else if i == 5 {
            Some(CubeFace::NegX)
        } else {
            None
        }
    }

    /// All six faces, in layout order.
    pub fn all() -> (r: [CubeFace; 6])
        ensures
            forall|i: int| 0 <= i < 6 ==> #[trigger] r[i] == CubeFace::from_ordinal(i),
    {
        [
            CubeFace::PosZ,
            CubeFace::NegY,
            CubeFace::PosY,
            CubeFace::NegZ,
            CubeFace::PosX,
            CubeFace::NegX,
        ]
    }

    /// Rotates a lattice point by the rotation of this face.
    pub fn rotate(self, p: Point3) -> (r: Point3)
        requires
            p.negatable(),
        ensures
            r@ == self.rotate_spec(p@),
    {
        match self {
            CubeFace::PosZ => Point3 { x: p.x, y: p.y, z: p.z },
            CubeFace::NegY => Point3 { x: p.x, y: -p.z, z: p.y },
            CubeFace::PosY => Point3 { x: p.x, y: p.z, z: -p.y },
            CubeFace::NegZ => Point3 { x: p.x, y: -p.y, z: -p.z },
            CubeFace::PosX => Point3 { x: p.z, y: p.y, z: -p.x },
            CubeFace::NegX => Point3 { x: -p.z, y: p.y, z: p.x },
        }
    }
}

/// The layout order numbers the faces: a face is found again from its
/// position, and each position from 0 to 5 belongs to the face it yields.
pub proof fn lemma_ordinal_numbers_the_faces(face: CubeFace, i: int)
    ensures
        0 <= face.ordinal() < 6,
        CubeFace::from_ordinal(face.ordinal()) == face,
        0 <= i < 6 ==> CubeFace::from_ordinal(i).ordinal() == i,
{
}

/// A face rotation keeps scalar products, and with them lengths and angles.
pub proof fn lemma_rotation_keeps_dot(face: CubeFace, a: Triple, b: Triple)
    ensures
        dot(face.rotate_spec(a), face.rotate_spec(b)) == dot(a, b),
{
    assert((-a.0) * (-b.0) == a.0 * b.0) by (nonlinear_arith);
    assert((-a.1) * (-b.1) == a.1 * b.1) by (nonlinear_arith);
    assert((-a.2) * (-b.2) == a.2 * b.2) by (nonlinear_arith);
}

/// A face rotation keeps vector products: it turns space without mirroring
/// it, so a triangle that winds one way still does after the rotation.
pub proof fn lemma_rotation_keeps_cross(face: CubeFace, a: Triple, b: Triple)
    ensures
        cross(face.rotate_spec(a), face.rotate_spec(b)) == face.rotate_spec(cross(a, b)),
{
    let c = cross(a, b);
    let ra = face.rotate_spec(a);
    let rb = face.rotate_spec(b);
    let rc = cross(ra, rb);
    let want = face.rotate_spec(c);
    assert(rc.0 == want.0) by (nonlinear_arith)
        requires
            rc == cross(ra, rb),
            want == face.rotate_spec(c),
            c == cross(a, b),
            ra == face.rotate_spec(a),
            rb == face.rotate_spec(b),
    ;
    assert(rc.1 == want.1) by (nonlinear_arith)
        requires
            rc == cross(ra, rb),
            want == face.rotate_spec(c),
            c == cross(a, b),
            ra == face.rotate_spec(a),
            rb == face.rotate_spec(b),
    ;
    assert(rc.2 == want.2) by (nonlinear_arith)
        requires
            rc == cross(ra, rb),
            want == face.rotate_spec(c),
            c == cross(a, b),
            ra == face.rotate_spec(a),
            rb == face.rotate_spec(b),
    ;
}

/// A face rotation carries displacements along: the displacement between
/// two rotated points is the rotated displacement.
pub proof fn lemma_rotation_keeps_minus(face: CubeFace, a: Triple, b: Triple)
    ensures
        minus(face.rotate_spec(a), face.rotate_spec(b)) == face.rotate_spec(minus(a, b)),
{
}

/// A face rotation keeps the cube in place: a point on the surface of a
/// cube centred on the origin stays on it.
pub proof fn lemma_rotation_keeps_max_norm(face: CubeFace, a: Triple)
    ensures
        max_norm(face.rotate_spec(a)) == max_norm(a),
{
}

/// The six faces look along the six half axes, each along one of its own.
pub proof fn lemma_faces_look_apart(f: CubeFace, g: CubeFace)
    ensures
        max_norm(f.normal()) == 1,
        dot(f.normal(), f.normal()) == 1,
        f.normal() == g.normal() ==> f == g,
{
    let n = f.normal();
    assert(dot(n, n) == 1) by (nonlinear_arith)
        requires
            n == (0int, 0int, 1int) || n == (0int, -1int, 0int) || n == (0int, 1int, 0int) || n == (
                0int,
                0int,
                -1int,
            ) || n == (1int, 0int, 0int) || n == (-1int, 0int, 0int),
    ;
}

} // verus!
