//! Meshes as submitted to the scene: vertices, local indices and a placement.
//! Float components are stored as `f32` bit patterns.
use vstd::prelude::*;

verus! {

/// Bit pattern of `1.0f32`.
pub const F32_ONE_BITS: u32 = 0x3F80_0000;

/// Bit pattern of `0.5f32`.
pub const F32_HALF_BITS: u32 = 0x3F00_0000;

/// Bit pattern of `-0.5f32`.
pub const F32_NEG_HALF_BITS: u32 = 0xBF00_0000;

/// One vertex record: a position and a texture coordinate.
#[derive(Clone, Copy, Debug, PartialEq, Eq)]
pub struct Vertex {
    pub position: [u32; 3],
    pub tex_coords: [u32; 2],
}

/// Placement of one mesh instance: translation, rotation quaternion
/// `[w, x, y, z]` and per-axis scale.
#[derive(Clone, Copy, Debug, PartialEq, Eq)]
pub struct CFrame {
    pub position: [u32; 3],
    pub rotation: [u32; 4],
    pub scale: [u32; 3],
}

impl CFrame {
    /// Zero translation, the unit quaternion and unit scale.
    pub open spec fn is_identity(self) -> bool {
        &&& self.position@ == seq![0u32, 0u32, 0u32]
        &&& self.rotation@ == seq![F32_ONE_BITS, 0u32, 0u32, 0u32]
        &&& self.scale@ == seq![F32_ONE_BITS, F32_ONE_BITS, F32_ONE_BITS]
    }

    pub fn identity() -> (r: CFrame)
        ensures
            r.is_identity(),
    {
        let r = CFrame {
            position: [0, 0, 0],
            rotation: [F32_ONE_BITS, 0, 0, 0],
            scale: [F32_ONE_BITS, F32_ONE_BITS, F32_ONE_BITS],
        };
        assert(r.position@ =~= seq![0u32, 0u32, 0u32]);
        assert(r.rotation@ =~= seq![F32_ONE_BITS, 0u32, 0u32, 0u32]);
        assert(r.scale@ =~= seq![F32_ONE_BITS, F32_ONE_BITS, F32_ONE_BITS]);
        r
    }
}

impl Default for CFrame {
    fn default() -> (r: CFrame)
        ensures
            r.is_identity(),
    {
        CFrame::identity()
    }
}

/// A triangulated mesh with 0-based indices into its own vertex list.
#[derive(Debug)]
pub struct Mesh {
    pub cframe: CFrame,
    pub vertices: Vec<Vertex>,
    pub indices: Vec<u16>,
}

/// Corners of the unit cube centred on the origin, with their texture coordinates.
pub open spec fn unit_cube_vertices() -> Seq<Vertex> {
    seq![
        Vertex { position: [F32_NEG_HALF_BITS, F32_NEG_HALF_BITS, F32_NEG_HALF_BITS], tex_coords: [0u32, 0u32] },
        Vertex { position: [F32_HALF_BITS, F32_NEG_HALF_BITS, F32_NEG_HALF_BITS], tex_coords: [F32_HALF_BITS, F32_HALF_BITS] },
        Vertex { position: [F32_HALF_BITS, F32_HALF_BITS, F32_NEG_HALF_BITS], tex_coords: [F32_ONE_BITS, 0u32] },
        Vertex { position: [F32_NEG_HALF_BITS, F32_HALF_BITS, F32_NEG_HALF_BITS], tex_coords: [F32_HALF_BITS, F32_HALF_BITS] },
        Vertex { position: [F32_NEG_HALF_BITS, F32_HALF_BITS, F32_HALF_BITS], tex_coords: [0u32, F32_ONE_BITS] },
        Vertex { position: [F32_HALF_BITS, F32_HALF_BITS, F32_HALF_BITS], tex_coords: [0u32, F32_ONE_BITS] },
        Vertex { position: [F32_HALF_BITS, F32_NEG_HALF_BITS, F32_HALF_BITS], tex_coords: [F32_ONE_BITS, F32_ONE_BITS] },
        Vertex { position: [F32_NEG_HALF_BITS, F32_NEG_HALF_BITS, F32_HALF_BITS], tex_coords: [F32_ONE_BITS, F32_ONE_BITS] },
    ]
}

/// The twelve triangles of the unit cube, three corner indices each.
pub open spec fn unit_cube_indices() -> Seq<u16> {
    seq![
        0u16, 2, 3, 2, 0, 1, 3, 2, 5, 5, 4, 3, 7, 5, 6, 5, 7, 4, 0, 6, 1, 0, 7, 6, 1, 6, 5, 5,
        2, 1, 4, 7, 0, 0, 3, 4,
    ]
}

/// Every corner of the unit cube belongs to some triangle, and each of its
/// twelve triangles has three different corners.
pub proof fn lemma_unit_cube_is_closed()
    ensures
        forall|v: u16| v < 8 ==> #[trigger] unit_cube_indices().contains(v),
        forall|t: int|
            0 <= t < 12 ==> {
                let a = #[trigger] unit_cube_indices()[3 * t];
                let b = unit_cube_indices()[3 * t + 1];
                let c = unit_cube_indices()[3 * t + 2];
                a != b && b != c && a != c
            },
{
    let ix = unit_cube_indices();
    assert(ix[0] == 0 && ix[5] == 1 && ix[1] == 2 && ix[2] == 3 && ix[10] == 4 && ix[8] == 5
        && ix[14] == 6 && ix[12] == 7);
    assert forall|v: u16| v < 8 implies #[trigger] ix.contains(v) by {
        if v == 0 {
            assert(ix[0] == v);
        } else if v == 1 {
            assert(ix[5] == v);
        } else if v == 2 {
            assert(ix[1] == v);
        } else if v == 3 {
            assert(ix[2] == v);
        } else if v == 4 {
            assert(ix[10] == v);
        } else if v == 5 {
            assert(ix[8] == v);
        } else if v == 6 {
            assert(ix[14] == v);
        } else {
            assert(ix[12] == v);
        }
    }
    assert forall|t: int| 0 <= t < 12 implies {
        let a = #[trigger] ix[3 * t];
        let b = ix[3 * t + 1];
        let c = ix[3 * t + 2];
        a != b && b != c && a != c
    } by {
        assert(t == 0 || t == 1 || t == 2 || t == 3 || t == 4 || t == 5 || t == 6 || t == 7 || t
            == 8 || t == 9 || t == 10 || t == 11);
    }
}

impl Default for Mesh {
    /// A unit cube centred on the origin, with identity placement.
    fn default() -> (r: Mesh)
        ensures
            r.vertices@ == unit_cube_vertices(),
            r.indices@ == unit_cube_indices(),
            r.vertices@.len() == 8,
            r.indices@.len() == 36,
            forall|j: int| 0 <= j < 36 ==> #[trigger] r.indices@[j] < 8,
            r.cframe.is_identity(),
    {
        Mesh {
            cframe: CFrame::identity(),
            vertices: vec![
                Vertex {
                    position: [F32_NEG_HALF_BITS, F32_NEG_HALF_BITS, F32_NEG_HALF_BITS],
                    tex_coords: [0, 0],
                },
                Vertex {
                    position: [F32_HALF_BITS, F32_NEG_HALF_BITS, F32_NEG_HALF_BITS],
                    tex_coords: [F32_HALF_BITS, F32_HALF_BITS],
                },
                Vertex {
                    position: [F32_HALF_BITS, F32_HALF_BITS, F32_NEG_HALF_BITS],
                    tex_coords: [F32_ONE_BITS, 0],
                },
                Vertex {
                    position: [F32_NEG_HALF_BITS, F32_HALF_BITS, F32_NEG_HALF_BITS],
                    tex_coords: [F32_HALF_BITS, F32_HALF_BITS],
                },
                Vertex {
                    position: [F32_NEG_HALF_BITS, F32_HALF_BITS, F32_HALF_BITS],
                    tex_coords: [0, F32_ONE_BITS],
                },
                Vertex {
                    position: [F32_HALF_BITS, F32_HALF_BITS, F32_HALF_BITS],
                    tex_coords: [0, F32_ONE_BITS],
                },
                Vertex {
                    position: [F32_HALF_BITS, F32_NEG_HALF_BITS, F32_HALF_BITS],
                    tex_coords: [F32_ONE_BITS, F32_ONE_BITS],
                },
                Vertex {
                    position: [F32_NEG_HALF_BITS, F32_NEG_HALF_BITS, F32_HALF_BITS],
                    tex_coords: [F32_ONE_BITS, F32_ONE_BITS],
                },
            ],
            indices: vec![
                0, 2, 3, 2, 0, 1, 3, 2, 5, 5, 4, 3, 7, 5, 6, 5, 7, 4, 0, 6, 1, 0, 7, 6, 1, 6, 5, 5,
                2, 1, 4, 7, 0, 0, 3, 4,
            ],
        }
    }
}

} // verus!
