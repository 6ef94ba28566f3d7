use planet_mesh::face::CubeFace;
use planet_mesh::face::Point3;
use planet_mesh::grid::VertexSite;
use planet_mesh::planet::MeshLayout;
use planet_mesh::planet::NoiseSettings;
use planet_mesh::planet::PlanetGeneratorData;
use planet_mesh::planet::PlanetShape;

fn shape_with(resolution: i32, noise_settings: Vec<NoiseSettings>) -> PlanetShape {
    match PlanetShape::new(&PlanetGeneratorData { noise_settings, resolution }) {
        Ok(shape) => shape,
        Err(e) => panic!("resolution {} was turned down: {:?}", resolution, e),
    }
}

fn shape(resolution: i32) -> PlanetShape {
    shape_with(resolution, vec![NoiseSettings { seed: 0, mask_by_previous: false }])
}

fn layout(resolution: i32) -> MeshLayout {
    shape(resolution).generate_mesh()
}

fn site(resolution: i32, index: u32) -> VertexSite {
    match shape(resolution).site(index) {
        Some(site) => site,
        None => panic!("no vertex {} at resolution {}", index, resolution),
    }
}

#[test]
fn vertex_and_index_counts_follow_the_resolution() {
    for res in [2usize, 3, 4, 7, 32] {
        let l = layout(res as i32);
        assert_eq!(l.sites.len(), 6 * res * res);
        assert_eq!(l.indices.len(), 6 * (res - 1) * (res - 1) * 6);
        let s = shape(res as i32);
        assert_eq!(s.vertex_count() as usize, l.sites.len());
        assert_eq!(s.index_count() as usize, l.indices.len());
    }
}

#[test]
fn every_index_names_a_vertex() {
    for res in [2, 3, 5, 16] {
        let l = layout(res);
        for i in &l.indices {
            assert!((*i as usize) < l.sites.len());
        }
    }
}

#[test]
fn resolution_two_gives_one_square_per_face() {
    let l = layout(2);
    assert_eq!(l.sites.len(), 24);
    assert_eq!(l.indices.len(), 36);
    for face in 0..6u32 {
        let base = 4 * face;
        let start = 6 * face as usize;
        assert_eq!(
            l.indices[start..start + 6],
            [base, base + 2, base + 1, base + 2, base + 3, base + 1]
        );
        for k in 0..4 {
            assert_eq!(l.sites[(base + k) as usize].face.index(), face);
        }
    }
}

#[test]
fn resolution_three_index_buffer_of_the_first_face() {
    let l = layout(3);
    assert_eq!(
        l.indices[..24],
        [
            0, 3, 1, 3, 4, 1, // row 0, column 0
            1, 4, 2, 4, 5, 2, // row 0, column 1
            3, 6, 4, 6, 7, 4, // row 1, column 0
            4, 7, 5, 7, 8, 5, // row 1, column 1
        ]
    );
    // The second face starts over at its own first vertex.
    assert_eq!(l.indices[24..30], [9, 12, 10, 12, 13, 10]);
}

#[test]
fn no_square_hangs_from_the_last_row_or_column() {
    let res = 5u32;
    let l = layout(res as i32);
    for square in l.indices.chunks(6) {
        let anchor = l.sites[square[0] as usize];
        assert!(anchor.row < res - 1);
        assert!(anchor.col < res - 1);
        assert_eq!(square[1], square[0] + res);
        assert_eq!(square[2], square[0] + 1);
        assert_eq!(square[3], square[0] + res);
        assert_eq!(square[4], square[0] + res + 1);
        assert_eq!(square[5], square[0] + 1);
    }
}

#[test]
fn triangles_stay_on_one_face_and_have_three_corners() {
    let l = layout(4);
    for t in l.indices.chunks(3) {
        let face = l.sites[t[0] as usize].face;
        assert_eq!(l.sites[t[1] as usize].face, face);
        assert_eq!(l.sites[t[2] as usize].face, face);
        assert_ne!(t[0], t[1]);
        assert_ne!(t[0], t[2]);
        assert_ne!(t[1], t[2]);
    }
}

#[test]
fn all_triangles_wind_alike() {
    let l = layout(3);
    let sub = |a: Point3, b: Point3| Point3 { x: a.x - b.x, y: a.y - b.y, z: a.z - b.z };
    for t in l.indices.chunks(3) {
        let a = l.sites[t[0] as usize];
        let b = l.sites[t[1] as usize].point;
        let c = l.sites[t[2] as usize].point;
        let u = sub(b, a.point);
        let v = sub(c, a.point);
        let cross = Point3 {
            x: u.y * v.z - u.z * v.y,
            y: u.z * v.x - u.x * v.z,
            z: u.x * v.y - u.y * v.x,
        };
        let n = a.face.rotate(Point3 { x: 0, y: 0, z: 1 });
        assert_eq!(cross.x * n.x + cross.y * n.y + cross.z * n.z, -4);
    }
}

#[test]
fn records_of_the_corners_of_the_first_face() {
    assert_eq!(
        site(3, 0),
        VertexSite {
            face: CubeFace::PosZ,
            row: 0,
            col: 0,
            point: Point3 { x: -2, y: -2, z: 2 },
            horizontal_neighbor: 1,
            vertical_neighbor: 3,
        }
    );
    assert_eq!(
        site(3, 2),
        VertexSite {
            face: CubeFace::PosZ,
            row: 0,
            col: 2,
            point: Point3 { x: 2, y: -2, z: 2 },
            horizontal_neighbor: 1,
            vertical_neighbor: 5,
        }
    );
    assert_eq!(
        site(3, 6),
        VertexSite {
            face: CubeFace::PosZ,
            row: 2,
            col: 0,
            point: Point3 { x: -2, y: 2, z: 2 },
            horizontal_neighbor: 7,
            vertical_neighbor: 3,
        }
    );
    assert_eq!(
        site(3, 8),
        VertexSite {
            face: CubeFace::PosZ,
            row: 2,
            col: 2,
            point: Point3 { x: 2, y: 2, z: 2 },
            horizontal_neighbor: 7,
            vertical_neighbor: 5,
        }
    );
}

#[test]
fn records_on_the_other_faces() {
    // First vertex of the second face: its neighbours are on that face too.
    assert_eq!(
        site(3, 9),
        VertexSite {
            face: CubeFace::NegY,
            row: 0,
            col: 0,
            point: Point3 { x: -2, y: -2, z: -2 },
            horizontal_neighbor: 10,
            vertical_neighbor: 12,
        }
    );
    // Centre of each face: the face's own normal, scaled.
    let centres = [
        (4, CubeFace::PosZ, Point3 { x: 0, y: 0, z: 2 }),
        (13, CubeFace::NegY, Point3 { x: 0, y: -2, z: 0 }),
        (22, CubeFace::PosY, Point3 { x: 0, y: 2, z: 0 }),
        (31, CubeFace::NegZ, Point3 { x: 0, y: 0, z: -2 }),
        (40, CubeFace::PosX, Point3 { x: 2, y: 0, z: 0 }),
        (49, CubeFace::NegX, Point3 { x: -2, y: 0, z: 0 }),
    ];
    for (index, face, point) in centres {
        let s = site(3, index);
        assert_eq!(s.face, face);
        assert_eq!((s.row, s.col), (1, 1));
        assert_eq!(s.point, point);
    }
    // Last vertex of the mesh.
    assert_eq!(
        site(3, 53),
        VertexSite {
            face: CubeFace::NegX,
            row: 2,
            col: 2,
            point: Point3 { x: -2, y: 2, z: 2 },
            horizontal_neighbor: 52,
            vertical_neighbor: 50,
        }
    );
}

#[test]
fn there_is_no_record_past_the_last_vertex() {
    let s = shape(3);
    assert!(s.site(53).is_some());
    assert_eq!(s.site(54), None);
    assert_eq!(s.site(u32::MAX), None);
}

#[test]
fn generated_records_are_those_of_site() {
    let s = shape(4);
    let l = s.generate_mesh();
    assert_eq!(s.generate_sites(), l.sites);
    assert_eq!(s.generate_indices(), l.indices);
    for (i, record) in l.sites.iter().enumerate() {
        assert_eq!(s.site(i as u32), Some(*record));
    }
}

#[test]
fn a_vertex_is_found_again_from_its_number() {
    let s = shape(5);
    for (i, record) in s.generate_sites().iter().enumerate() {
        assert_eq!(s.vertex_index(record.face, record.row, record.col), Some(i as u32));
    }
    assert_eq!(s.vertex_index(CubeFace::PosZ, 0, 0), Some(0));
    assert_eq!(s.vertex_index(CubeFace::NegY, 1, 2), Some(32));
    assert_eq!(s.vertex_index(CubeFace::NegX, 4, 4), Some(149));
}

#[test]
fn rows_and_columns_off_the_grid_have_no_number() {
    let s = shape(5);
    assert_eq!(s.vertex_index(CubeFace::PosZ, 5, 0), None);
    assert_eq!(s.vertex_index(CubeFace::PosZ, 0, 5), None);
    assert_eq!(s.vertex_index(CubeFace::NegX, u32::MAX, u32::MAX), None);
}

#[test]
fn neighbours_are_one_step_away_on_the_same_face() {
    let res = 4u32;
    let l = layout(res as i32);
    for (i, s) in l.sites.iter().enumerate() {
        let h = l.sites[s.horizontal_neighbor as usize];
        let v = l.sites[s.vertical_neighbor as usize];
        assert_eq!(h.face, s.face);
        assert_eq!(h.row, s.row);
        assert_eq!(h.col, if s.col == res - 1 { res - 2 } else { s.col + 1 });
        assert_eq!(v.face, s.face);
        assert_eq!(v.col, s.col);
        assert_eq!(v.row, if s.row == res - 1 { res - 2 } else { s.row + 1 });
        assert_ne!(s.horizontal_neighbor as usize, i);
        assert_ne!(s.vertical_neighbor as usize, i);
    }
}

#[test]
fn every_vertex_lies_on_the_cube_in_the_plane_of_its_face() {
    let res = 6;
    for s in layout(res).sites {
        let p = s.point;
        let reach = p.x.abs().max(p.y.abs()).max(p.z.abs());
        assert_eq!(reach, res - 1);
        let n = s.face.rotate(Point3 { x: 0, y: 0, z: 1 });
        assert_eq!(p.x * n.x + p.y * n.y + p.z * n.z, res - 1);
    }
}

#[test]
fn vertices_on_a_shared_edge_exist_once_per_face() {
    let l = layout(3);
    let at = |p: Point3| l.sites.iter().filter(|s| s.point == p).count();
    // A corner of the cube belongs to three faces, the middle of an edge
    // to two, the middle of a face to one.
    assert_eq!(at(Point3 { x: 2, y: 2, z: 2 }), 3);
    assert_eq!(at(Point3 { x: 0, y: 2, z: 2 }), 2);
    assert_eq!(at(Point3 { x: 0, y: 0, z: 2 }), 1);
}

#[test]
fn generating_twice_gives_the_same_layout() {
    let s = shape(8);
    let a = s.generate_mesh();
    let b = s.generate_mesh();
    assert_eq!(a.sites, b.sites);
    assert_eq!(a.indices, b.indices);
}

#[test]
fn the_layout_does_not_depend_on_the_layers() {
    let a = shape_with(6, vec![]).generate_mesh();
    let b = shape_with(
        6,
        vec![
            NoiseSettings { seed: 11, mask_by_previous: false },
            NoiseSettings { seed: 12, mask_by_previous: true },
        ],
    )
    .generate_mesh();
    assert_eq!(a.sites, b.sites);
    assert_eq!(a.indices, b.indices);
}
