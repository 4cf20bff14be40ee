use voxel_core::mesh::{CFrame, Mesh, Vertex, F32_ONE_BITS};
use voxel_core::scene::{SceneError, Storrage};

fn vertex(x: f32, y: f32, z: f32) -> Vertex {
    Vertex {
        position: [x.to_bits(), y.to_bits(), z.to_bits()],
        tex_coords: [0, 0],
    }
}

fn triangle(offset: f32) -> Mesh {
    Mesh {
        cframe: CFrame {
            position: [offset.to_bits(), 0, 0],
            ..CFrame::default()
        },
        vertices: vec![
            vertex(offset, 0.0, 0.0),
            vertex(offset + 1.0, 0.0, 0.0),
            vertex(offset, 1.0, 0.0),
        ],
        indices: vec![0, 1, 2],
    }
}

#[test]
fn identity_placement_uses_unit_quaternion() {
    let id = CFrame::default();
    assert_eq!(id.position, [0, 0, 0]);
    assert_eq!(id.rotation, [1.0f32.to_bits(), 0, 0, 0]);
    assert_eq!(id.scale, [1.0f32.to_bits(); 3]);
    assert_eq!(F32_ONE_BITS, 1.0f32.to_bits());
    assert_eq!(CFrame::identity(), id);
}

#[test]
fn unit_cube_mesh() {
    let cube = Mesh::default();
    assert_eq!(cube.vertices.len(), 8);
    assert_eq!(cube.indices.len(), 36);
    assert!(cube.indices.iter().all(|&i| i < 8));
    assert_eq!(cube.cframe, CFrame::identity());
    assert_eq!(cube.vertices[0], Vertex {
        position: [(-0.5f32).to_bits(); 3],
        tex_coords: [0, 0],
    });
    assert_eq!(cube.vertices[5].position, [0.5f32.to_bits(); 3]);
    assert_eq!(cube.vertices[2].tex_coords, [1.0f32.to_bits(), 0]);
    assert_eq!(
        cube.indices,
        vec![
            0, 2, 3, 2, 0, 1, 3, 2, 5, 5, 4, 3, 7, 5, 6, 5, 7, 4, 0, 6, 1, 0, 7, 6, 1, 6, 5, 5, 2,
            1, 4, 7, 0, 0, 3, 4,
        ]
    );
    let corners: Vec<[f32; 3]> = cube
        .vertices
        .iter()
        .map(|v| v.position.map(f32::from_bits))
        .collect();
    assert_eq!(
        corners,
        vec![
            [-0.5, -0.5, -0.5],
            [0.5, -0.5, -0.5],
            [0.5, 0.5, -0.5],
            [-0.5, 0.5, -0.5],
            [-0.5, 0.5, 0.5],
            [0.5, 0.5, 0.5],
            [0.5, -0.5, 0.5],
            [-0.5, -0.5, 0.5],
        ]
    );
}

#[test]
fn append_grows_each_list() {
    let mut store = Storrage::new();
    let a = triangle(0.0);
    assert_eq!(store.append(&a), Ok(()));
    assert_eq!(store.vertex_list().len(), 3);
    assert_eq!(store.index_list().len(), 3);
    assert_eq!(store.instance_list().len(), 1);
    let cube = Mesh::default();
    assert_eq!(store.append(&cube), Ok(()));
    assert_eq!(store.vertex_list().len(), 3 + 8);
    assert_eq!(store.index_list().len(), 3 + 36);
    assert_eq!(store.instance_list().len(), 2);
    assert_eq!(store.instance_list()[0], a.cframe);
    assert_eq!(store.instance_list()[1], cube.cframe);
}

#[test]
fn second_mesh_indices_are_offset() {
    let mut store = Storrage::new();
    let a = triangle(0.0);
    let b = triangle(5.0);
    store.append(&a).unwrap();
    store.append(&b).unwrap();
    assert_eq!(store.index_list(), &vec![0, 1, 2, 3, 4, 5]);
    assert!(store.index_list()[3..].iter().all(|&i| i >= 3));
    assert_eq!(store.vertex_list()[3..], b.vertices[..]);
    assert_eq!(store.vertex_list()[..3], a.vertices[..]);
}

#[test]
fn two_cubes_scenario() {
    let mut store = Storrage::new();
    Mesh::default().load(&mut store).unwrap();
    Mesh::default().load(&mut store).unwrap();
    assert_eq!(store.vertex_list().len(), 16);
    assert_eq!(store.index_list().len(), 72);
    assert_eq!(store.instance_list().len(), 2);
    assert_eq!(store.draw_instance_count(), 2);
    let cube = Mesh::default();
    for (j, &k) in cube.indices.iter().enumerate() {
        assert_eq!(store.index_list()[j], k);
        assert_eq!(store.index_list()[36 + j], k + 8);
    }
}

#[test]
fn empty_mesh_is_refused() {
    let mut store = Storrage::new();
    store.append(&triangle(0.0)).unwrap();
    let empty = Mesh {
        cframe: CFrame::default(),
        vertices: vec![],
        indices: vec![],
    };
    assert_eq!(store.append(&empty), Err(SceneError::EmptyMesh));
    assert_eq!(store.vertex_list().len(), 3);
    assert_eq!(store.index_list().len(), 3);
    assert_eq!(store.instance_list().len(), 1);
}

#[test]
fn aliasing_index_is_refused() {
    let mut store = Storrage::new();
    store.append(&triangle(0.0)).unwrap();
    let mut bad = triangle(1.0);
    bad.indices = vec![0, 1, 3];
    assert_eq!(bad.load(&mut store), Err(SceneError::IndexOutOfRange));
    assert_eq!(store.vertex_list().len(), 3);
    assert_eq!(store.index_list(), &vec![0, 1, 2]);
    assert_eq!(store.instance_list().len(), 1);
    assert_eq!(store.draw_instance_count(), 1);
}

#[test]
fn indices_beyond_sixteen_bits_are_refused() {
    let mut store = Storrage::new();
    let big = Mesh {
        cframe: CFrame::default(),
        vertices: vec![vertex(0.0, 0.0, 0.0); 65_536],
        indices: vec![0, 65_535],
    };
    assert_eq!(store.append(&big), Ok(()));
    assert_eq!(store.index_list(), &vec![0, 65_535]);
    let unused_indices = Mesh {
        cframe: CFrame::default(),
        vertices: vec![vertex(1.0, 0.0, 0.0)],
        indices: vec![],
    };
    assert_eq!(store.append(&unused_indices), Ok(()));
    assert_eq!(store.vertex_list().len(), 65_537);
    assert_eq!(store.append(&triangle(0.0)), Err(SceneError::IndexOutOfRange));
    assert_eq!(store.vertex_list().len(), 65_537);
    assert_eq!(store.index_list().len(), 2);
    assert_eq!(store.instance_list().len(), 2);
}
