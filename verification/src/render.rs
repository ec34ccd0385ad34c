use vstd::prelude::*;

verus! {

/// Floats of a vertex's position (x, y, z).
pub const POSITION_FLOATS: i32 = 3;

/// Floats of a vertex's texture coordinate (u, v).
pub const TEXCOORD_FLOATS: i32 = 2;

/// Floats of one interleaved vertex: its position, then its texture coordinate.
pub const VERTEX_FLOATS: usize = 5;

/// Bytes of one 32-bit float.
pub const FLOAT_BYTES: i32 = 4;

/// How one vertex attribute is read from the interleaved vertex buffer, in the
/// terms of WebGL's `vertexAttribPointer`: `size` floats per vertex, `stride`
/// bytes from one vertex to the next, starting `offset` bytes into a vertex.
#[derive(Clone, Copy, Debug, PartialEq, Eq, Structural)]
pub struct AttributeLayout {
    pub size: i32,
    pub stride: i32,
    pub offset: i32,
}

/// The position attribute (`aPos`): the first three floats of each vertex.
pub open spec fn spec_position_layout() -> AttributeLayout {
    AttributeLayout { size: 3, stride: 20, offset: 0 }
}

/// The texture coordinate attribute (`aTexCoord`): the two floats after the position.
pub open spec fn spec_texcoord_layout() -> AttributeLayout {
    AttributeLayout { size: 2, stride: 20, offset: 12 }
}

/// Bytes from one vertex to the next: five floats of four bytes.
pub fn vertex_stride() -> (stride: i32)
    ensures
        stride == (POSITION_FLOATS + TEXCOORD_FLOATS) * FLOAT_BYTES,
        stride == 20,
{
    (POSITION_FLOATS + TEXCOORD_FLOATS) * FLOAT_BYTES
}

/// How the position attribute is read.
pub fn position_layout() -> (layout: AttributeLayout)
    ensures
        layout == spec_position_layout(),
{
    AttributeLayout { size: POSITION_FLOATS, stride: vertex_stride(), offset: 0 }
}

/// How the texture coordinate attribute is read: right after the position.
/// The two attributes tile a vertex: the texture coordinate starts where the
/// position ends, ends where the vertex ends, and both use the same stride.
pub fn texcoord_layout() -> (layout: AttributeLayout)
    ensures
        layout == spec_texcoord_layout(),
        layout.offset == spec_position_layout().offset + spec_position_layout().size * FLOAT_BYTES,
        layout.offset + layout.size * FLOAT_BYTES == layout.stride,
        layout.stride == spec_position_layout().stride,
{
    AttributeLayout {
        size: TEXCOORD_FLOATS,
        stride: vertex_stride(),
        offset: POSITION_FLOATS * FLOAT_BYTES,
    }
}

/// The number of vertices in a mesh of `floats` interleaved floats; a cube's
/// 180 floats make the 36 vertices of its 12 triangles.
pub fn mesh_vertex_count(floats: usize) -> (vertices: usize)
    requires
        floats % VERTEX_FLOATS == 0,
    ensures
        vertices * VERTEX_FLOATS == floats,
{
    floats / VERTEX_FLOATS
}

} // verus!
