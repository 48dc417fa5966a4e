//! The binary mesh container.
//!
//! A container is a 12-byte header (magic, version 2, total length), a JSON
//! chunk that describes the buffer, and a binary chunk that holds it. Each
//! chunk is its padded length, its type, its data, and padding up to a
//! multiple of four bytes: spaces after JSON, zeros after binary data. All
//! numbers are little-endian.
//!
//! The buffer holds the vertices first, 24 bytes each (position, then color,
//! three 4-byte numbers each), and the triangle indices after them, 4 bytes
//! each.

use crate::encoding::{
    append_bytes, append_le32, le32, le32_all, lemma_le32_all_len, EncodingFailure,
};
use crate::mesh::Vertex;
use vstd::prelude::*;

verus! {

/// The bytes one vertex takes in the buffer.
pub const VERTEX_STRIDE: u32 = 24;

/// Where the color of a vertex starts within its bytes.
pub const COLOR_OFFSET: u32 = 12;

/// The bytes one index takes in the buffer.
pub const INDEX_SIZE: u32 = 4;

/// The numbers that the JSON chunk records about the buffer.
#[derive(Clone, Copy, Debug, PartialEq, Eq, Structural)]
pub struct BufferLayout {
    pub vertex_count: u32,
    pub index_count: u32,
    /// The length of the vertex part, which is also where the index part starts.
    pub vertex_bytes: u32,
    pub index_bytes: u32,
    pub buffer_bytes: u32,
}

/// The smallest and the largest coordinate on each axis.
#[derive(Clone, Copy, Debug, PartialEq, Eq)]
pub struct Bounds {
    pub min: (u16, u16, u16),
    pub max: (u16, u16, u16),
}

/// The layout of a buffer of so many vertices and indices.
pub open spec fn layout_of(vertex_count: int, index_count: int) -> BufferLayout {
    BufferLayout {
        vertex_count: vertex_count as u32,
        index_count: index_count as u32,
        vertex_bytes: (24 * vertex_count) as u32,
        index_bytes: (4 * index_count) as u32,
        buffer_bytes: (24 * vertex_count + 4 * index_count) as u32,
    }
}

/// Lays out the buffer, or reports that its length does not fit 32 bits.
pub fn buffer_layout(vertex_count: usize, index_count: usize) -> (layout: Result<
    BufferLayout,
    EncodingFailure,
>)
    ensures
        24 * vertex_count + 4 * index_count <= u32::MAX ==> layout == Ok::<
            BufferLayout,
            EncodingFailure,
        >(layout_of(vertex_count as int, index_count as int)),
        24 * vertex_count + 4 * index_count > u32::MAX ==> layout == Err::<
            BufferLayout,
            EncodingFailure,
        >(EncodingFailure::TooLarge),
{
    if vertex_count > 0xFFFF_FFFF || index_count > 0xFFFF_FFFF {
        return Err(EncodingFailure::TooLarge);
    }
    let vertex_bytes: u64 = 24 * (vertex_count as u64);
    let index_bytes: u64 = 4 * (index_count as u64);
    let buffer_bytes: u64 = vertex_bytes + index_bytes;
    if buffer_bytes > 0xFFFF_FFFF {
        return Err(EncodingFailure::TooLarge);
    }
    Ok(
        BufferLayout {
            vertex_count: vertex_count as u32,
            index_count: index_count as u32,
            vertex_bytes: vertex_bytes as u32,
            index_bytes: index_bytes as u32,
            buffer_bytes: buffer_bytes as u32,
        },
    )
}

/// Whether `bounds` are the tight bounds of the positions of `vertices`: no
/// vertex lies outside them, and on each axis some vertex touches each end.
pub open spec fn bounds_of<C>(vertices: Seq<Vertex<C>>, bounds: Bounds) -> bool {
    &&& forall|i: int|
        0 <= i < vertices.len() ==> {
            &&& bounds.min.0 <= (#[trigger] vertices[i]).x <= bounds.max.0
            &&& bounds.min.1 <= vertices[i].y <= bounds.max.1
            &&& bounds.min.2 <= vertices[i].z <= bounds.max.2
        }
    &&& exists|i: int| 0 <= i < vertices.len() && (#[trigger] vertices[i]).x == bounds.min.0
    &&& exists|i: int| 0 <= i < vertices.len() && (#[trigger] vertices[i]).y == bounds.min.1
    &&& exists|i: int| 0 <= i < vertices.len() && (#[trigger] vertices[i]).z == bounds.min.2
    &&& exists|i: int| 0 <= i < vertices.len() && (#[trigger] vertices[i]).x == bounds.max.0
    &&& exists|i: int| 0 <= i < vertices.len() && (#[trigger] vertices[i]).y == bounds.max.1
    &&& exists|i: int| 0 <= i < vertices.len() && (#[trigger] vertices[i]).z == bounds.max.2
}

/// The tight bounds of the vertex positions; `None` for no vertices.
pub fn position_bounds<C: Copy>(vertices: &[Vertex<C>]) -> (bounds: Option<Bounds>)
    ensures
        match bounds {
            Some(b) => vertices@.len() > 0 && bounds_of(vertices@, b),
            None => vertices@.len() == 0,
        },
{
    if vertices.len() == 0 {
        return None;
    }
    let first = vertices[0];
    let mut min: (u16, u16, u16) = (first.x, first.y, first.z);
    let mut max: (u16, u16, u16) = (first.x, first.y, first.z);
    let mut i: usize = 1;
    proof {
        assert(vertices@.take(1)[0] == first);
    }
    while i < vertices.len()
        invariant
            1 <= i <= vertices@.len(),
            bounds_of(vertices@.take(i as int), (Bounds { min, max })),
        decreases vertices@.len() - i,
    {
        let ghost seen = vertices@.take(i as int);
        let ghost next = vertices@.take(i + 1);
        let ghost old_bounds = Bounds { min, max };
        let v = vertices[i];
        if v.x < min.0 {
            min.0 = v.x;
        }
        if v.y < min.1 {
            min.1 = v.y;
        }
        if v.z < min.2 {
            min.2 = v.z;
        }
        if v.x > max.0 {
            max.0 = v.x;
        }
        if v.y > max.1 {
            max.1 = v.y;
        }
        if v.z > max.2 {
            max.2 = v.z;
        }
        proof {
            let b = Bounds { min, max };
            assert(next[i as int] == v);
            assert forall|k: int| 0 <= k < seen.len() implies next[k] == seen[k] by {}
            let w0 = choose|k: int|
                0 <= k < seen.len() && (#[trigger] seen[k]).x == old_bounds.min.0;
            assert(next[w0].x == old_bounds.min.0);
            let w1 = choose|k: int|
                0 <= k < seen.len() && (#[trigger] seen[k]).y == old_bounds.min.1;
            assert(next[w1].y == old_bounds.min.1);
            let w2 = choose|k: int|
                0 <= k < seen.len() && (#[trigger] seen[k]).z == old_bounds.min.2;
            assert(next[w2].z == old_bounds.min.2);
            let w3 = choose|k: int|
                0 <= k < seen.len() && (#[trigger] seen[k]).x == old_bounds.max.0;
            assert(next[w3].x == old_bounds.max.0);
            let w4 = choose|k: int|
                0 <= k < seen.len() && (#[trigger] seen[k]).y == old_bounds.max.1;
            assert(next[w4].y == old_bounds.max.1);
            let w5 = choose|k: int|
                0 <= k < seen.len() && (#[trigger] seen[k]).z == old_bounds.max.2;
            assert(next[w5].z == old_bounds.max.2);
            assert forall|k: int| 0 <= k < next.len() implies {
                &&& b.min.0 <= (#[trigger] next[k]).x <= b.max.0
                &&& b.min.1 <= next[k].y <= b.max.1
                &&& b.min.2 <= next[k].z <= b.max.2
            } by {
                if k < seen.len() {
                    assert(seen[k] == next[k]);
                }
            }
            assert(bounds_of(next, b));
        }
        i += 1;
    }
    proof {
        assert(vertices@.take(vertices@.len() as int) =~= vertices@);
    }
    Some(Bounds { min, max })
}

/// The index part of the buffer: every index as four bytes.
pub fn index_bytes(indices: &[u32]) -> (bytes: Vec<u8>)
    ensures
        bytes@ == le32_all(indices@),
        bytes@.len() == 4 * indices@.len(),
{
    let mut bytes: Vec<u8> = Vec::new();
    let mut i: usize = 0;
    while i < indices.len()
        invariant
            i <= indices@.len(),
            bytes@ == le32_all(indices@.take(i as int)),
        decreases indices@.len() - i,
    {
        append_le32(&mut bytes, indices[i]);
        proof {
            let next = indices@.take(i + 1);
            assert(next.drop_last() =~= indices@.take(i as int));
            assert(next.last() == indices@[i as int]);
        }
        i += 1;
    }
    proof {
        assert(indices@.take(indices@.len() as int) =~= indices@);
        lemma_le32_all_len(indices@);
    }
    bytes
}

/// The whole buffer: the vertex part as given, then the index part.
pub fn binary_buffer(vertex_bytes: &[u8], indices: &[u32]) -> (buffer: Vec<u8>)
    ensures
        buffer@ == vertex_bytes@ + le32_all(indices@),
        buffer@.len() == vertex_bytes@.len() + 4 * indices@.len(),
{
    let mut buffer: Vec<u8> = Vec::new();
    append_bytes(&mut buffer, vertex_bytes);
    let tail = index_bytes(indices);
    append_bytes(&mut buffer, tail.as_slice());
    assert(buffer@ =~= vertex_bytes@ + le32_all(indices@));
    buffer
}

/// `n` rounded up to a multiple of four.
pub open spec fn padded_len(n: int) -> int {
    (n + 3) / 4 * 4
}

/// One chunk: padded length, type, data, padding.
pub open spec fn chunk(kind: Seq<u8>, data: Seq<u8>, fill: u8) -> Seq<u8> {
    le32(padded_len(data.len() as int)) + kind + data + Seq::new(
        (padded_len(data.len() as int) - data.len()) as nat,
        |i: int| fill,
    )
}

/// The length of a container with these two chunks.
pub open spec fn container_len(json_len: int, bin_len: int) -> int {
    12 + 8 + padded_len(json_len) + 8 + padded_len(bin_len)
}

/// The container that holds `json` and `bin`.
pub open spec fn glb_container(json: Seq<u8>, bin: Seq<u8>) -> Seq<u8> {
    let total = container_len(json.len() as int, bin.len() as int);
    let header = seq![0x67u8, 0x6C, 0x54, 0x46] + le32(2) + le32(total);
    let json_chunk = chunk(seq![0x4Au8, 0x53, 0x4F, 0x4E], json, 0x20);
    let bin_chunk = chunk(seq![0x42u8, 0x49, 0x4E, 0x00], bin, 0);
    header + json_chunk + bin_chunk
}

/// Appends one chunk.
fn append_chunk(out: &mut Vec<u8>, kind: [u8; 4], data: &[u8], fill: u8)
    requires
        data@.len() + 3 <= u32::MAX,
    ensures
        final(out)@ == old(out)@ + chunk(kind@, data@, fill),
{
    let ghost before = out@;
    let len: u64 = data.len() as u64;
    let padded: u64 = (len + 3) / 4 * 4;
    append_le32(out, padded as u32);
    append_bytes(out, kind.as_slice());
    append_bytes(out, data);
    let ghost body = out@;
    let mut written: u64 = len;
    while written < padded
        invariant
            len <= written <= padded,
            out@ == body + Seq::new((written - len) as nat, |i: int| fill),
        decreases padded - written,
    {
        out.push(fill);
        written += 1;
        assert(out@ =~= body + Seq::new((written - len) as nat, |i: int| fill));
    }
    assert(out@ =~= before + chunk(kind@, data@, fill));
}

/// Packs the JSON document and the buffer into one container, unless the
/// container would be longer than its 32-bit length field can say.
pub fn container(json: &[u8], bin: &[u8]) -> (file: Result<Vec<u8>, EncodingFailure>)
    ensures
        container_len(json@.len() as int, bin@.len() as int) <= u32::MAX <==> file is Ok,
        file is Ok ==> file->Ok_0@ == glb_container(json@, bin@),
        file is Err ==> file->Err_0 == EncodingFailure::TooLarge,
{
    if json.len() > 0xFFFF_FFFF || bin.len() > 0xFFFF_FFFF {
        return Err(EncodingFailure::TooLarge);
    }
    let json_padded: u64 = (json.len() as u64 + 3) / 4 * 4;
    let bin_padded: u64 = (bin.len() as u64 + 3) / 4 * 4;
    let total: u64 = 12 + 8 + json_padded + 8 + bin_padded;
    if total > 0xFFFF_FFFF {
        return Err(EncodingFailure::TooLarge);
    }
    let mut out: Vec<u8> = Vec::new();
    let magic: [u8; 4] = [0x67, 0x6C, 0x54, 0x46];
    append_bytes(&mut out, magic.as_slice());
    append_le32(&mut out, 2);
    append_le32(&mut out, total as u32);
    append_chunk(&mut out, [0x4A, 0x53, 0x4F, 0x4E], json, 0x20);
    append_chunk(&mut out, [0x42, 0x49, 0x4E, 0x00], bin, 0);
    assert(out@ =~= glb_container(json@, bin@));
    Ok(out)
}

/// Equal documents and equal buffers give equal containers.
pub proof fn lemma_container_deterministic(
    json_a: Seq<u8>,
    bin_a: Seq<u8>,
    json_b: Seq<u8>,
    bin_b: Seq<u8>,
)
    requires
        json_a =~= json_b,
        bin_a =~= bin_b,
    ensures
        glb_container(json_a, bin_a) == glb_container(json_b, bin_b),
{
}

} // verus!
