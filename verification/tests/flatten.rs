use mesh_transfer::flatten::flatten;
use mesh_transfer::mesh::{Mesh, Triangle, Vertex};

fn vertex(px: f32, py: f32, pz: f32, nx: f32, ny: f32, nz: f32) -> Vertex<f32> {
    Vertex { pos: [px, py, pz], norm: [nx, ny, nz] }
}

fn one_triangle() -> Mesh<f32> {
    Mesh {
        verts: vec![
            vertex(0.0, 0.0, 0.0, 0.0, 0.0, 1.0),
            vertex(1.0, 0.0, 0.0, 0.0, 0.0, 1.0),
            vertex(0.0, 1.0, 0.0, 0.0, 0.0, 1.0),
        ],
        triangles: vec![Triangle { verts: [0, 1, 2] }],
    }
}

#[test]
fn single_triangle_gives_nine_nine_three() {
    let flat = flatten(&one_triangle());
    assert_eq!(flat.positions().len(), 9);
    assert_eq!(flat.normals().len(), 9);
    assert_eq!(flat.indices(), &vec![0u32, 1, 2]);
}

#[test]
fn positions_are_interleaved_x_y_z_in_vertex_order() {
    let flat = flatten(&one_triangle());
    assert_eq!(
        flat.positions(),
        &vec![0.0f32, 0.0, 0.0, 1.0, 0.0, 0.0, 0.0, 1.0, 0.0]
    );
}

#[test]
fn normals_are_interleaved_x_y_z_in_vertex_order() {
    let mesh = Mesh {
        verts: vec![
            vertex(0.0, 0.0, 0.0, 0.25, 0.5, 0.75),
            vertex(0.0, 0.0, 0.0, -1.0, -2.0, -3.0),
        ],
        triangles: vec![],
    };
    let flat = flatten(&mesh);
    assert_eq!(flat.normals(), &vec![0.25f32, 0.5, 0.75, -1.0, -2.0, -3.0]);
    assert_eq!(flat.positions(), &vec![0.0f32; 6]);
}

#[test]
fn positions_and_normals_do_not_mix() {
    let mesh = Mesh {
        verts: vec![Vertex { pos: [1u8, 2, 3], norm: [4, 5, 6] }, Vertex {
            pos: [7, 8, 9],
            norm: [10, 11, 12],
        }],
        triangles: vec![],
    };
    let flat = flatten(&mesh);
    assert_eq!(flat.positions(), &vec![1u8, 2, 3, 7, 8, 9]);
    assert_eq!(flat.normals(), &vec![4u8, 5, 6, 10, 11, 12]);
}

#[test]
fn triangles_keep_their_order_and_winding() {
    let mesh = Mesh {
        verts: vec![
            vertex(0.0, 0.0, 0.0, 0.0, 0.0, 1.0),
            vertex(1.0, 0.0, 0.0, 0.0, 0.0, 1.0),
            vertex(1.0, 1.0, 0.0, 0.0, 0.0, 1.0),
            vertex(0.0, 1.0, 0.0, 0.0, 0.0, 1.0),
        ],
        triangles: vec![Triangle { verts: [2, 0, 1] }, Triangle { verts: [0, 2, 3] }],
    };
    let flat = flatten(&mesh);
    assert_eq!(flat.indices(), &vec![2u32, 0, 1, 0, 2, 3]);
}

#[test]
fn empty_mesh_gives_empty_buffers() {
    let mesh: Mesh<f32> = Mesh { verts: vec![], triangles: vec![] };
    let flat = flatten(&mesh);
    assert!(flat.positions().is_empty());
    assert!(flat.normals().is_empty());
    assert!(flat.indices().is_empty());
}

#[test]
fn vertices_without_triangles_are_kept() {
    let mesh = Mesh { verts: vec![vertex(1.0, 2.0, 3.0, 4.0, 5.0, 6.0)], triangles: vec![] };
    let flat = flatten(&mesh);
    assert_eq!(flat.positions(), &vec![1.0f32, 2.0, 3.0]);
    assert_eq!(flat.normals(), &vec![4.0f32, 5.0, 6.0]);
    assert!(flat.indices().is_empty());
}

#[test]
fn buffer_lengths_are_three_per_record() {
    let mut verts = Vec::new();
    let mut triangles = Vec::new();
    for i in 0..7u32 {
        verts.push(Vertex { pos: [i, i + 100, i + 200], norm: [i + 300, i + 400, i + 500] });
    }
    for i in 0..5u32 {
        triangles.push(Triangle { verts: [i, i + 1, i + 2] });
    }
    let flat = flatten(&Mesh { verts, triangles });
    assert_eq!(flat.positions().len(), 21);
    assert_eq!(flat.normals().len(), 21);
    assert_eq!(flat.indices().len(), 15);
}

#[test]
fn entry_i_is_component_i_mod_3_of_record_i_div_3() {
    let mut verts = Vec::new();
    for i in 0..4i64 {
        verts.push(Vertex { pos: [10 * i, 10 * i + 1, 10 * i + 2], norm: [-10 * i, -10 * i - 1, -10 * i - 2] });
    }
    let triangles = vec![Triangle { verts: [3, 2, 1] }, Triangle { verts: [1, 0, 3] }];
    let mesh = Mesh { verts, triangles };
    let flat = flatten(&mesh);
    for i in 0..12usize {
        assert_eq!(flat.positions()[i], mesh.verts[i / 3].pos[i % 3]);
        assert_eq!(flat.normals()[i], mesh.verts[i / 3].norm[i % 3]);
    }
    for i in 0..6usize {
        assert_eq!(flat.indices()[i], mesh.triangles[i / 3].verts[i % 3]);
    }
}

#[test]
fn valid_mesh_keeps_every_index_below_the_vertex_count() {
    let flat = flatten(&one_triangle());
    let vert_count = flat.positions().len() / 3;
    assert!(flat.indices().iter().all(|&i| (i as usize) < vert_count));
}

#[test]
fn out_of_range_index_is_carried_over_unchanged() {
    let mesh = Mesh {
        verts: vec![vertex(0.0, 0.0, 0.0, 0.0, 0.0, 1.0)],
        triangles: vec![Triangle { verts: [0, 9, 0] }],
    };
    let flat = flatten(&mesh);
    assert_eq!(flat.indices(), &vec![0u32, 9, 0]);
}

#[test]
fn into_buffers_hands_out_what_was_flattened() {
    let (positions, normals, indices) = flatten(&one_triangle()).into_buffers();
    assert_eq!(positions, vec![0.0f32, 0.0, 0.0, 1.0, 0.0, 0.0, 0.0, 1.0, 0.0]);
    assert_eq!(normals, vec![0.0f32, 0.0, 1.0, 0.0, 0.0, 1.0, 0.0, 0.0, 1.0]);
    assert_eq!(indices, vec![0u32, 1, 2]);
}

#[test]
fn narrowed_coordinates_pass_through_as_given() {
    let wide = [0.1f64, 1.0e300, -1.0e300];
    let mesh = Mesh {
        verts: vec![Vertex {
            pos: [wide[0] as f32, wide[1] as f32, wide[2] as f32],
            norm: [0.0f32, 0.0, 1.0],
        }],
        triangles: vec![],
    };
    let flat = flatten(&mesh);
    assert_eq!(flat.positions()[0], 0.1f32);
    assert_eq!(flat.positions()[1], f32::INFINITY);
    assert_eq!(flat.positions()[2], f32::NEG_INFINITY);
}
