//! Mesh bookkeeping: vertex-count derivation and the fixed attribute layout.
//!
//! A mesh owns one vertex-array object and one vertex buffer on the device.
//! The library keeps the device-independent part of that state: the vertex
//! count, fixed at construction as `floor(float_count / 6)` where each vertex
//! is 3 position floats followed by 3 color floats, and the attribute layout
//! the vertex array is configured with, which never changes after creation.

use vstd::prelude::*;

verus! {

/// Floats per vertex: 3 position components followed by 3 color components.
pub const FLOATS_PER_VERTEX: usize = 6;

/// Bytes between consecutive vertices: 6 floats of 4 bytes each.
pub const VERTEX_STRIDE_BYTES: u32 = 24;

/// How one vertex attribute is laid out inside the interleaved buffer.
#[derive(Clone, Copy, Debug, PartialEq, Eq, Structural)]
pub struct VertexAttribute {
    /// Attribute slot the shader reads this attribute from.
    pub index: u32,
    /// Number of float components of the attribute.
    pub components: u32,
    /// Bytes between consecutive vertices.
    pub stride: u32,
    /// Byte offset of the attribute inside one vertex.
    pub offset: u32,
}

/// The device-independent state of a renderable mesh.
///
/// The vertex count is computed once at construction and never changes; it
/// drives the non-indexed triangle-list draw over all vertices.
#[derive(Clone, Copy, Debug, PartialEq, Eq, Structural)]
pub struct Mesh {
    /// Number of vertices the mesh draws, as the draw call takes it.
    pub vertex_count: i32,
}

impl Mesh {
    /// The number of whole vertices a flat float array of length
    /// `float_count` holds.
    pub open spec fn spec_vertex_count(float_count: usize) -> int {
        float_count as int / FLOATS_PER_VERTEX as int
    }

    /// Derive the vertex count from the length of a flat vertex array.
    ///
    /// A length that is not a multiple of 6 is truncated toward zero: the
    /// trailing partial vertex is never drawn, so no out-of-bounds read can
    /// follow from it.
    pub fn calculate_vertex_count(float_count: usize) -> (count: i32)
        requires
            Mesh::spec_vertex_count(float_count) <= i32::MAX,
        ensures
            count == Mesh::spec_vertex_count(float_count),
    {
        (float_count / FLOATS_PER_VERTEX) as i32
    }

    /// Record a mesh over a flat vertex array of length `float_count`.
    ///
    /// The count is fixed here once; uploading the data and configuring the
    /// vertex array on the device happen outside the library, against the
    /// layout [`Mesh::attribute_layout`] describes.
    pub fn new(float_count: usize) -> (mesh: Mesh)
        requires
            Mesh::spec_vertex_count(float_count) <= i32::MAX,
        ensures
            mesh.vertex_count == Mesh::spec_vertex_count(float_count),
    {
        Mesh { vertex_count: Mesh::calculate_vertex_count(float_count) }
    }

    /// The fixed vertex-attribute layout: attribute 0 holds 3 position
    /// floats at offset 0, attribute 1 holds 3 color floats at offset 12,
    /// both with a stride of 24 bytes. Established when the vertex array is
    /// configured and never changed afterwards.
    pub fn attribute_layout() -> (layout: Vec<VertexAttribute>)
        ensures
            layout@ =~= seq![
                (VertexAttribute { index: 0, components: 3, stride: VERTEX_STRIDE_BYTES, offset: 0 }),
                (VertexAttribute {
                    index: 1,
                    components: 3,
                    stride: VERTEX_STRIDE_BYTES,
                    offset: 12,
                }),
            ],
    {
        let mut layout: Vec<VertexAttribute> = Vec::new();
        layout.push(VertexAttribute { index: 0, components: 3, stride: VERTEX_STRIDE_BYTES, offset: 0 });
        layout.push(VertexAttribute { index: 1, components: 3, stride: VERTEX_STRIDE_BYTES, offset: 12 });
        layout
    }
}

} // verus!
