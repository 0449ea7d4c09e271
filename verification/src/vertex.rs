//! Vertices: what the toolkit emits, and what the vertex stage reads.
//!
//! Every number that is a float on the GPU is held here as the bit pattern of
//! an IEEE-754 single-precision value.

use vstd::prelude::*;
use crate::bytes::{is_native_layout, native_bytes};
use crate::color::{unit_bits, unit_single};

verus! {

/// Number of 32-bit words in one vertex of a vertex buffer.
pub const VERTEX_WORDS: usize = 8;

/// Number of bytes in one vertex of a vertex buffer.
pub const VERTEX_SIZE: usize = 32;

/// A vertex of a paint batch: a position in logical pixels, a texture
/// coordinate, and a colour of four bytes (red, green, blue, alpha).
#[derive(Clone, Copy, Debug, PartialEq, Eq)]
pub struct PaintVertex {
    pub pos: [u32; 2],
    pub uv: [u32; 2],
    pub color: [u8; 4],
}

/// A vertex as the vertex stage reads it: two floats of position, two of
/// texture coordinate, four of colour in the range 0 to 1, tightly packed in
/// that order.
#[derive(Clone, Copy, Debug, PartialEq, Eq)]
pub struct Vertex {
    pub position: [u32; 2],
    pub uv: [u32; 2],
    pub color: [u32; 4],
}

impl PaintVertex {
    /// The eight words that the vertex stage reads for this vertex: position
    /// and texture coordinate as they are, then each colour channel as its
    /// fraction of 255, in the order red, green, blue, alpha.
    pub open spec fn gpu_words(self) -> Seq<u32> {
        seq![
            self.pos[0],
            self.pos[1],
            self.uv[0],
            self.uv[1],
            unit_bits(self.color[0]),
            unit_bits(self.color[1]),
            unit_bits(self.color[2]),
            unit_bits(self.color[3]),
        ]
    }
}

impl Vertex {
    /// The eight words of the vertex in buffer order.
    pub open spec fn words(self) -> Seq<u32> {
        seq![
            self.position[0],
            self.position[1],
            self.uv[0],
            self.uv[1],
            self.color[0],
            self.color[1],
            self.color[2],
            self.color[3],
        ]
    }

    /// Converts a paint vertex for the vertex stage.
    pub fn from_paint(vertex: &PaintVertex) -> (out: Vertex)
        ensures
            out.position@ == vertex.pos@,
            out.uv@ == vertex.uv@,
            out.color@ == seq![
                unit_bits(vertex.color[0]),
                unit_bits(vertex.color[1]),
                unit_bits(vertex.color[2]),
                unit_bits(vertex.color[3]),
            ],
            out.words() == vertex.gpu_words(),
    {
        Vertex {
            position: [vertex.pos[0], vertex.pos[1]],
            uv: [vertex.uv[0], vertex.uv[1]],
            color: [
                unit_single(vertex.color[0]),
                unit_single(vertex.color[1]),
                unit_single(vertex.color[2]),
                unit_single(vertex.color[3]),
            ],
        }
    }
}

/// The words of a vertex buffer: eight for every vertex, in the vertices'
/// order.
pub open spec fn vertex_words(vertices: Seq<PaintVertex>) -> Seq<u32> {
    Seq::new(8 * vertices.len(), |j: int| vertices[j / 8].gpu_words()[j % 8])
}

/// The contents of the vertex buffer of a batch, as this machine lays the
/// words out in memory.
pub fn vertex_data(vertices: &Vec<PaintVertex>) -> (bytes: Vec<u8>)
    ensures
        is_native_layout(bytes@, vertex_words(vertices@)),
        bytes@.len() == 32 * vertices@.len(),
{
    let mut words: Vec<u32> = Vec::new();
    for i in 0..vertices.len()
        invariant
            words@.len() == 8 * i,
            forall|j: int| 0 <= j < 8 * i ==> words@[j] == vertices@[j / 8].gpu_words()[j % 8],
    {
        let vertex = Vertex::from_paint(&vertices[i]);
        words.push(vertex.position[0]);
        words.push(vertex.position[1]);
        words.push(vertex.uv[0]);
        words.push(vertex.uv[1]);
        words.push(vertex.color[0]);
        words.push(vertex.color[1]);
        words.push(vertex.color[2]);
        words.push(vertex.color[3]);
    }
    assert(words@ =~= vertex_words(vertices@));
    native_bytes(&words)
}

/// The contents of the index buffer of a batch, as this machine lays the
/// indices out in memory.
pub fn index_data(indices: &Vec<u32>) -> (bytes: Vec<u8>)
    ensures
        is_native_layout(bytes@, indices@),
        bytes@.len() == 4 * indices@.len(),
{
    native_bytes(indices)
}

} // verus!
