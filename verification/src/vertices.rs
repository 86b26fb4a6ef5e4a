//! The one mesh that every instance repeats: a small prism of quads, its
//! sides drawn from the left half of the texture and its top from the right.

use crate::bytes::{bytes_of_u16, holds_u16};
use crate::layout::{LayoutView, StepMode, VertexAttribute, VertexBufferLayout, VertexFormat};
use vstd::prelude::*;

verus! {

/// Bytes of one vertex in its buffer: three 32-bit numbers for the place and
/// two for the texture.
pub const VERTEX_SIZE: u64 = 20;

/// A corner of the mesh. `position` counts whole units along x, y and z;
/// `tex_coords` counts halves of the texture's width and height, so `(1, 2)`
/// is the middle of its lower edge.
#[derive(Clone, Copy, Debug, PartialEq, Eq)]
pub struct Vertex {
    pub position: (i32, i32, i32),
    pub tex_coords: (u32, u32),
}

/// The corner at `(x, y, z)` that shows the texture at `(u, v)`.
pub open spec fn corner(x: int, y: int, z: int, u: int, v: int) -> Vertex {
    Vertex { position: (x as i32, y as i32, z as i32), tex_coords: (u as u32, v as u32) }
}

/// The corners of the mesh: the front quad, the back quad, and the four
/// corners of the top once more for the second texture region.
pub open spec fn mesh_vertices() -> Seq<Vertex> {
    seq![
        corner(-1, -1, 0, 0, 2),
        corner(1, -1, 0, 1, 2),
        corner(1, 1, 0, 1, 0),
        corner(-1, 1, 0, 0, 0),
        corner(-1, -1, 2, 1, 2),
        corner(1, -1, 2, 0, 2),
        corner(1, 1, 2, 0, 0),
        corner(-1, 1, 2, 1, 0),
        corner(1, 1, 0, 2, 2),
        corner(-1, 1, 0, 1, 2),
        corner(1, 1, 2, 2, 0),
        corner(-1, 1, 2, 1, 0),
    ]
}

/// The triangles of the mesh, three corners each: front, back, right and
/// left, then the top.
pub open spec fn mesh_indices() -> Seq<u16> {
    seq![
        0, 1, 2, 2, 3, 0,
        4, 5, 6, 6, 7, 4,
        1, 2, 5, 6, 5, 2,
        0, 3, 4, 3, 4, 7,
        8, 9, 10, 10, 11, 9,
    ]
}

/// The layout of the vertex buffer: the place at byte 0 for the shader's
/// slot 0, the texture coordinates at byte 12 for slot 1.
pub open spec fn vertex_layout() -> LayoutView {
    LayoutView {
        array_stride: VERTEX_SIZE,
        step_mode: StepMode::Vertex,
        attributes: seq![
            VertexAttribute { offset: 0, shader_location: 0, format: VertexFormat::Float32x3 },
            VertexAttribute { offset: 12, shader_location: 1, format: VertexFormat::Float32x2 },
        ],
    }
}

impl Vertex {
    /// The layout of the vertex buffer: the place at byte 0 for the shader's
    /// slot 0, the texture coordinates at byte 12 for slot 1.
    pub fn desc() -> (layout: VertexBufferLayout)
        ensures
            layout@ == vertex_layout(),
            layout.well_formed(),
    {
        let mut attributes: Vec<VertexAttribute> = Vec::new();
        attributes.push(
            VertexAttribute { offset: 0, shader_location: 0, format: VertexFormat::Float32x3 },
        );
        attributes.push(
            VertexAttribute { offset: 12, shader_location: 1, format: VertexFormat::Float32x2 },
        );
        assert(attributes@ =~= vertex_layout().attributes);
        VertexBufferLayout { array_stride: VERTEX_SIZE, step_mode: StepMode::Vertex, attributes }
    }
}

/// The corners of the mesh.
pub fn vertices() -> (v: Vec<Vertex>)
    ensures
        v@ == mesh_vertices(),
{
    let v: Vec<Vertex> = vec![
        Vertex { position: (-1, -1, 0), tex_coords: (0, 2) },
        Vertex { position: (1, -1, 0), tex_coords: (1, 2) },
        Vertex { position: (1, 1, 0), tex_coords: (1, 0) },
        Vertex { position: (-1, 1, 0), tex_coords: (0, 0) },
        Vertex { position: (-1, -1, 2), tex_coords: (1, 2) },
        Vertex { position: (1, -1, 2), tex_coords: (0, 2) },
        Vertex { position: (1, 1, 2), tex_coords: (0, 0) },
        Vertex { position: (-1, 1, 2), tex_coords: (1, 0) },
        Vertex { position: (1, 1, 0), tex_coords: (2, 2) },
        Vertex { position: (-1, 1, 0), tex_coords: (1, 2) },
        Vertex { position: (1, 1, 2), tex_coords: (2, 0) },
        Vertex { position: (-1, 1, 2), tex_coords: (1, 0) },
    ];
    assert(v@ =~= mesh_vertices());
    v
}

/// The triangles of the mesh.
pub fn indices() -> (v: Vec<u16>)
    ensures
        v@ == mesh_indices(),
{
    let v: Vec<u16> = vec![
        0, 1, 2, 2, 3, 0,
        4, 5, 6, 6, 7, 4,
        1, 2, 5, 6, 5, 2,
        0, 3, 4, 3, 4, 7,
        8, 9, 10, 10, 11, 9,
    ];
    assert(v@ =~= mesh_indices());
    v
}

/// What the two buffers of the mesh hold: the corners, and the bytes of the
/// index buffer, two for each index.
pub fn generate_buffers() -> (buffers: (Vec<Vertex>, Vec<u8>))
    ensures
        buffers.0@ == mesh_vertices(),
        holds_u16(buffers.1@, mesh_indices()),
        buffers.1@.len() == 60,
{
    let corners: Vec<Vertex> = vertices();
    let triangles: Vec<u16> = indices();
    let bytes: Vec<u8> = bytes_of_u16(&triangles);
    proof {
        mesh_is_closed();
    }
    (corners, bytes)
}

/// The mesh is whole: twelve corners, ten triangles, and every index names a
/// corner.
pub proof fn mesh_is_closed()
    ensures
        mesh_vertices().len() == 12,
        mesh_indices().len() == 30,
        forall|i: int|
            0 <= i < mesh_indices().len() ==> (#[trigger] mesh_indices()[i]) < mesh_vertices().len(),
{
    let indices = mesh_indices();
    assert forall|i: int| 0 <= i < indices.len() implies (#[trigger] indices[i]) < 12 by {
        if i < 10 {
            assert(indices[i] < 12);
        } else if i < 20 {
            assert(indices[i] < 12);
        } else {
            assert(indices[i] < 12);
        }
    }
}

/// The two texture regions keep apart: the sides of the prism stay in the
/// left half of the texture, the top in the right half, and only the top's
/// triangles name the top's corners.
pub proof fn texture_regions_keep_apart()
    ensures
        forall|i: int| 0 <= i < 8 ==> (#[trigger] mesh_vertices()[i]).tex_coords.0 <= 1,
        forall|i: int| 8 <= i < 12 ==> 1 <= (#[trigger] mesh_vertices()[i]).tex_coords.0 <= 2,
        forall|i: int| 0 <= i < 12 ==> (#[trigger] mesh_vertices()[i]).tex_coords.1 <= 2,
        forall|i: int| 0 <= i < 24 ==> (#[trigger] mesh_indices()[i]) < 8,
        forall|i: int| 24 <= i < 30 ==> (#[trigger] mesh_indices()[i]) >= 8,
{
}

} // verus!
