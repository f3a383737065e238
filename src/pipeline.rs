//! The fixed voxel pipeline: what depends on the render target's extent, and
//! the byte layouts that the pipeline consumes.

use vstd::prelude::*;
use crate::surface::Extent;

verus! {

/// Vertices drawn for each face record: two triangles.
pub const VERTICES_PER_FACE: u32 = 6;

/// Bytes of push-constant data: one 4x4 matrix of 32-bit floats.
pub const PUSH_CONSTANT_SIZE: u32 = 64;

/// Bytes of one face record in the instance buffer.
pub const FACE_STRIDE: u32 = 4;

/// The extent-dependent state of the voxel pipeline and its constant layout.
#[derive(Clone, Copy, PartialEq, Eq, Structural, Debug)]
pub struct PipelineConfig {
    pub viewport: Extent,
    pub scissor: Extent,
    pub face_stride: u32,
    pub push_constant_size: u32,
}

/// The pipeline for a render target of the given extent: viewport and
/// scissor cover it exactly.
pub fn pipeline_config(extent: Extent) -> (r: PipelineConfig)
    ensures
        r.viewport == extent,
        r.scissor == extent,
        r.face_stride == FACE_STRIDE,
        r.push_constant_size == PUSH_CONSTANT_SIZE,
{
    PipelineConfig {
        viewport: extent,
        scissor: extent,
        face_stride: FACE_STRIDE,
        push_constant_size: PUSH_CONSTANT_SIZE,
    }
}

/// An instanced draw.
#[derive(Clone, Copy, PartialEq, Eq, Structural, Debug)]
pub struct DrawCall {
    pub vertex_count: u32,
    pub instance_count: u32,
}

/// The draw of a mesh: six vertices per instance, one instance per face.
pub fn draw_call(face_count: u32) -> (r: DrawCall)
    ensures
        r == (DrawCall { vertex_count: VERTICES_PER_FACE, instance_count: face_count }),
{
    DrawCall { vertex_count: VERTICES_PER_FACE, instance_count: face_count }
}

/// Byte `j` (0 the least significant) of `w`.
pub open spec fn byte_of(w: u32, j: int) -> u8 {
    ((w >> ((8 * j) as u32)) & 0xffu32) as u8
}

/// The little-endian bytes of a sequence of words.
pub open spec fn le_bytes(ws: Seq<u32>) -> Seq<u8> {
    Seq::new(4 * ws.len(), |k: int| byte_of(ws[k / 4], k % 4))
}

proof fn lemma_byte_masks(w: u32)
    ensures
        w >> 0u32 == w,
        w & 0xffu32 <= 0xff,
        (w >> 8u32) & 0xffu32 <= 0xff,
        (w >> 16u32) & 0xffu32 <= 0xff,
        (w >> 24u32) & 0xffu32 <= 0xff,
{
    assert(w >> 0u32 == w) by (bit_vector);
    assert(w & 0xffu32 <= 0xff) by (bit_vector);
    assert((w >> 8u32) & 0xffu32 <= 0xff) by (bit_vector);
    assert((w >> 16u32) & 0xffu32 <= 0xff) by (bit_vector);
    assert((w >> 24u32) & 0xffu32 <= 0xff) by (bit_vector);
}

/// The words in little-endian byte order, four bytes each.
pub fn words_to_bytes(ws: &[u32]) -> (r: Vec<u8>)
    ensures
        r@ == le_bytes(ws@),
{
    let mut out: Vec<u8> = Vec::new();
    let mut i: usize = 0;
    while i < ws.len()
        invariant
            i <= ws@.len(),
            out@.len() == 4 * i,
            forall|k: int| 0 <= k < 4 * i ==> out@[k] == byte_of(ws@[k / 4], k % 4),
        decreases ws@.len() - i,
    {
        let w = ws[i];
        proof {
            lemma_byte_masks(w);
        }
        let ghost before = out@;
        out.push((w & 0xff) as u8);
        out.push(((w >> 8u32) & 0xff) as u8);
        out.push(((w >> 16u32) & 0xff) as u8);
        out.push(((w >> 24u32) & 0xff) as u8);
        assert forall|k: int| 0 <= k < 4 * (i + 1) implies out@[k] == byte_of(
            ws@[k / 4],
            k % 4,
        ) by {
            if k < 4 * i {
                assert(out@[k] == before[k]);
            } else {
                assert(k / 4 == i);
            }
        }
        i = i + 1;
    }
    assert(out@ =~= le_bytes(ws@));
    out
}

/// The push-constant block of a 4x4 matrix given as the bit patterns of its
/// sixteen floats, column by column: 64 bytes, little-endian.
pub fn push_constant_block(m: &[u32; 16]) -> (r: Vec<u8>)
    ensures
        r@ == le_bytes(m@),
        r@.len() == PUSH_CONSTANT_SIZE,
{
    words_to_bytes(m)
}

/// A face list ready for upload to the instance buffer.
pub struct MeshData {
    /// The face records, little-endian.
    pub bytes: Vec<u8>,
    /// Byte size of the buffer.
    pub size: u64,
    /// Number of faces, one instance each.
    pub instance_count: u32,
}

/// Lays out a face list for the instance buffer.
pub fn mesh_data(faces: &Vec<u32>) -> (r: MeshData)
    requires
        faces@.len() <= u32::MAX,
    ensures
        r.bytes@ == le_bytes(faces@),
        r.size == 4 * faces@.len(),
        r.instance_count == faces@.len(),
{
    let bytes = words_to_bytes(faces.as_slice());
    MeshData { bytes, size: 4 * (faces.len() as u64), instance_count: faces.len() as u32 }
}

} // verus!
