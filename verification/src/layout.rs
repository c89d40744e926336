//! The bytes that the vertex and index buffers are filled with.

use vstd::prelude::*;
use crate::geometry::Vertex;
use crate::pipeline::{VertexLayout, WORD_SIZE};

verus! {

/// The number of encoded numbers in one vertex record.
pub const WORDS_PER_VERTEX: usize = 6;

/// The numbers of a vertex record in the order of the record: the position's
/// three coordinates, then the colour's three channels.
pub open spec fn vertex_words(v: Vertex) -> Seq<u32> {
    seq![v.position.x, v.position.y, v.position.z, v.color.r, v.color.g, v.color.b]
}

/// The numbers of a run of vertex records, record after record.
pub open spec fn flattened(vertices: Seq<Vertex>) -> Seq<u32> {
    Seq::new(6 * vertices.len(), |w: int| vertex_words(vertices[w / 6])[w % 6])
}

/// Byte `k` of a value, counted from the least significant one.
pub open spec fn byte_of(value: u32, k: int) -> u8 {
    if k == 0 {
        (value % 0x100) as u8
    } else if k == 1 {
        (value / 0x100 % 0x100) as u8
    } else if k == 2 {
        (value / 0x1_0000 % 0x100) as u8
    } else {
        (value / 0x100_0000 % 0x100) as u8
    }
}

/// The bytes of a run of 32-bit words, least significant byte first.
pub open spec fn words_le(words: Seq<u32>) -> Seq<u8> {
    Seq::new(4 * words.len(), |b: int| byte_of(words[b / 4], b % 4))
}

/// The bytes of a run of 32-bit words, most significant byte first.
pub open spec fn words_be(words: Seq<u32>) -> Seq<u8> {
    Seq::new(4 * words.len(), |b: int| byte_of(words[b / 4], 3 - b % 4))
}

/// The bytes of a run of 16-bit indices, least significant byte first.
pub open spec fn indices_le(indices: Seq<u16>) -> Seq<u8> {
    Seq::new(2 * indices.len(), |b: int| byte_of(indices[b / 2] as u32, b % 2))
}

/// The bytes of a run of 16-bit indices, most significant byte first.
pub open spec fn indices_be(indices: Seq<u16>) -> Seq<u8> {
    Seq::new(2 * indices.len(), |b: int| byte_of(indices[b / 2] as u32, 1 - b % 2))
}

/// Whether `bytes` are the vertex records of `vertices` as they lie in
/// memory, in one of the two byte orders that a machine may have.
pub open spec fn is_vertex_data(vertices: Seq<Vertex>, bytes: Seq<u8>) -> bool {
    bytes == words_le(flattened(vertices)) || bytes == words_be(flattened(vertices))
}

/// Whether `bytes` are `indices` as they lie in memory, in one of the two
/// byte orders that a machine may have.
pub open spec fn is_index_data(indices: Seq<u16>, bytes: Seq<u8>) -> bool {
    bytes == indices_le(indices) || bytes == indices_be(indices)
}

/// `bytemuck::cast_slice` from `u32` to `u8`, copied into a vector: the bytes
/// of the words as they lie in memory. The cast keeps the words' order and
/// gives four bytes for each; within a word the bytes come in the machine's
/// order, which is one of two. A cast to bytes cannot fail.
#[verifier::external_body]
fn words_to_bytes(words: &[u32]) -> (r: Vec<u8>)
    ensures
        r@ == words_le(words@) || r@ == words_be(words@),
{
    bytemuck::cast_slice::<u32, u8>(words).to_vec()
}

/// `bytemuck::cast_slice` from `u16` to `u8`, copied into a vector: the bytes
/// of the indices as they lie in memory. The cast keeps the indices' order
/// and gives two bytes for each; within an index the bytes come in the
/// machine's order, which is one of two. A cast to bytes cannot fail.
#[verifier::external_body]
fn halves_to_bytes(indices: &[u16]) -> (r: Vec<u8>)
    ensures
        r@ == indices_le(indices@) || r@ == indices_be(indices@),
{
    bytemuck::cast_slice::<u16, u8>(indices).to_vec()
}

/// Lays the numbers of the vertices out record after record.
pub fn flatten(vertices: &[Vertex]) -> (r: Vec<u32>)
    ensures
        r@ == flattened(vertices@),
{
    let n: usize = vertices.len();
    let mut words: Vec<u32> = Vec::new();
    let mut i: usize = 0;
    while i < n
        invariant
            n == vertices.len(),
            i <= n,
            words@ == flattened(vertices@.take(i as int)),
        decreases n - i,
    {
        let v: Vertex = vertices[i];
        words.push(v.position.x);
        words.push(v.position.y);
        words.push(v.position.z);
        words.push(v.color.r);
        words.push(v.color.g);
        words.push(v.color.b);
        proof {
            let done = flattened(vertices@.take(i + 1));
            assert forall|w: int| 0 <= w < 6 * (i + 1) implies words@[w] == done[w] by {
                if w < 6 * i {
                    assert(words@[w] == flattened(vertices@.take(i as int))[w]);
                    assert(w / 6 < i);
                } else {
                    assert(w / 6 == i);
                    assert(w % 6 == w - 6 * i);
                }
            }
            assert(words@ =~= done);
        }
        i += 1;
    }
    proof {
        assert(vertices@.take(n as int) =~= vertices@);
    }
    words
}

/// The bytes to fill the vertex buffer with: 24 for each vertex.
pub fn vertex_bytes(vertices: &[Vertex]) -> (r: Vec<u8>)
    ensures
        is_vertex_data(vertices@, r@),
        r.len() == 24 * vertices.len(),
{
    let words: Vec<u32> = flatten(vertices);
    words_to_bytes(words.as_slice())
}

/// The bytes to fill the index buffer with: two for each index.
pub fn index_bytes(indices: &[u16]) -> (r: Vec<u8>)
    ensures
        is_index_data(indices@, r@),
        r.len() == 2 * indices.len(),
{
    halves_to_bytes(indices)
}

/// Each attribute of the vertex layout reads what the record holds at its
/// offset: in the numbers of a run of vertices, the three at the position's
/// offset in record `i` are the coordinates of vertex `i`, and the three at
/// the colour's offset are its channels.
pub proof fn lemma_attributes_read_record(vertices: Seq<Vertex>, i: int)
    requires
        0 <= i < vertices.len(),
    ensures
        ({
            let layout = VertexLayout::standard();
            let words = flattened(vertices);
            let record = i * (layout.array_stride / WORD_SIZE);
            let position = record + layout.position.offset / WORD_SIZE;
            let color = record + layout.color.offset / WORD_SIZE;
            &&& words[position] == vertices[i].position.x
            &&& words[position + 1] == vertices[i].position.y
            &&& words[position + 2] == vertices[i].position.z
            &&& words[color] == vertices[i].color.r
            &&& words[color + 1] == vertices[i].color.g
            &&& words[color + 2] == vertices[i].color.b
        }),
{
    let words = flattened(vertices);
    let layout = VertexLayout::standard();
    assert(layout.array_stride / WORD_SIZE == 6);
    assert(layout.position.offset / WORD_SIZE == 0);
    assert(layout.color.offset / WORD_SIZE == 3);
    assert forall|c: int| 0 <= c < 6 implies #[trigger] words[6 * i + c] == vertex_words(
        vertices[i],
    )[c] by {
        assert((6 * i + c) / 6 == i);
        assert((6 * i + c) % 6 == c);
    }
    assert(words[6 * i + 0] == vertices[i].position.x);
    assert(words[6 * i + 1] == vertices[i].position.y);
    assert(words[6 * i + 2] == vertices[i].position.z);
    assert(words[6 * i + 3] == vertices[i].color.r);
    assert(words[6 * i + 4] == vertices[i].color.g);
    assert(words[6 * i + 5] == vertices[i].color.b);
}

} // verus!
