use planet_mesh::face::CubeFace;
use planet_mesh::face::Point3;

fn p(x: i32, y: i32, z: i32) -> Point3 {
    Point3 { x, y, z }
}

#[test]
fn faces_are_numbered_in_layout_order() {
    let all = CubeFace::all();
    assert_eq!(
        all,
        [
            CubeFace::PosZ,
            CubeFace::NegY,
            CubeFace::PosY,
            CubeFace::NegZ,
            CubeFace::PosX,
            CubeFace::NegX
        ]
    );
    for (i, face) in all.iter().enumerate() {
        assert_eq!(face.index(), i as u32);
        assert_eq!(CubeFace::from_index(i as u32), Some(*face));
    }
}

#[test]
fn there_is_no_seventh_face() {
    assert_eq!(CubeFace::from_index(6), None);
    assert_eq!(CubeFace::from_index(u32::MAX), None);
}

#[test]
fn each_face_rotates_as_its_turn_says() {
    let v = p(1, 2, 3);
    assert_eq!(CubeFace::PosZ.rotate(v), p(1, 2, 3));
    assert_eq!(CubeFace::NegY.rotate(v), p(1, -3, 2));
    assert_eq!(CubeFace::PosY.rotate(v), p(1, 3, -2));
    assert_eq!(CubeFace::NegZ.rotate(v), p(1, -2, -3));
    assert_eq!(CubeFace::PosX.rotate(v), p(3, 2, -1));
    assert_eq!(CubeFace::NegX.rotate(v), p(-3, 2, 1));
}

#[test]
fn each_face_looks_along_its_own_half_axis() {
    let n = p(0, 0, 1);
    assert_eq!(CubeFace::PosZ.rotate(n), p(0, 0, 1));
    assert_eq!(CubeFace::NegY.rotate(n), p(0, -1, 0));
    assert_eq!(CubeFace::PosY.rotate(n), p(0, 1, 0));
    assert_eq!(CubeFace::NegZ.rotate(n), p(0, 0, -1));
    assert_eq!(CubeFace::PosX.rotate(n), p(1, 0, 0));
    assert_eq!(CubeFace::NegX.rotate(n), p(-1, 0, 0));
}

#[test]
fn rotation_keeps_lengths_and_handedness() {
    let a = p(3, -4, 5);
    let b = p(-2, 7, 1);
    let dot = |u: Point3, v: Point3| u.x * v.x + u.y * v.y + u.z * v.z;
    let cross = |u: Point3, v: Point3| {
        p(u.y * v.z - u.z * v.y, u.z * v.x - u.x * v.z, u.x * v.y - u.y * v.x)
    };
    for face in CubeFace::all() {
        let ra = face.rotate(a);
        let rb = face.rotate(b);
        assert_eq!(dot(ra, ra), 50);
        assert_eq!(dot(ra, rb), dot(a, b));
        assert_eq!(cross(ra, rb), face.rotate(cross(a, b)));
    }
}

#[test]
fn rotation_takes_the_extreme_values_that_can_be_negated() {
    let v = p(i32::MAX, -i32::MAX, 0);
    assert_eq!(CubeFace::NegZ.rotate(v), p(i32::MAX, i32::MAX, 0));
    assert_eq!(CubeFace::NegX.rotate(v), p(0, -i32::MAX, i32::MAX));
}
