//! Packing 32-bit words into the bytes of a GPU buffer.
//!
//! A buffer holds each word in the byte order of the machine that fills it,
//! which is little-endian or big-endian.

use vstd::prelude::*;

verus! {

/// Byte `k` of a word, byte 0 being the least significant.
pub open spec fn byte_of(word: u32, k: int) -> u8 {
    if k == 0 {
        (word % 256) as u8
    } else if k == 1 {
        ((word / 256) % 256) as u8
    } else if k == 2 {
        ((word / 65536) % 256) as u8
    } else {
        ((word / 16777216) % 256) as u8
    }
}

/// The words as bytes, four per word, least significant byte first.
pub open spec fn le_bytes(words: Seq<u32>) -> Seq<u8> {
    Seq::new(4 * words.len(), |i: int| byte_of(words[i / 4], i % 4))
}

/// The words as bytes, four per word, most significant byte first.
pub open spec fn be_bytes(words: Seq<u32>) -> Seq<u8> {
    Seq::new(4 * words.len(), |i: int| byte_of(words[i / 4], 3 - i % 4))
}

/// `bytes` holds `words` in one of the two byte orders, the same for all of
/// them.
pub open spec fn packed(words: Seq<u32>, bytes: Seq<u8>) -> bool {
    bytes == le_bytes(words) || bytes == be_bytes(words)
}

/// The bytes of a sequence of words as they lie in memory, copied out.
///
/// Trusted: calls `bytemuck::cast_slice` from `u32` to `u8`. The cast
/// reinterprets the memory of the slice, so the result has four bytes for
/// each word, in the order of the words and in the byte order of the
/// machine. It cannot fail in this direction: a byte has alignment 1 and any
/// number of bytes is a whole number of them.
#[verifier::external_body]
pub(crate) fn words_to_bytes(words: &Vec<u32>) -> (bytes: Vec<u8>)
    ensures
        packed(words@, bytes@),
{
    bytemuck::cast_slice::<u32, u8>(words.as_slice()).to_vec()
}

/// Appends the words of a row to a buffer of words.
pub(crate) fn push_row<const N: usize>(words: &mut Vec<u32>, row: &[u32; N])
    ensures
        final(words)@ == old(words)@ + row@,
{
    let mut i: usize = 0;
    while i < N
        invariant
            i <= N,
            row@.len() == N,
            words@ == old(words)@ + row@.subrange(0, i as int),
        decreases N - i,
    {
        words.push(row[i]);
        i += 1;
        assert(row@.subrange(0, i as int) == row@.subrange(0, i - 1).push(row@[i - 1]));
    }
    assert(row@.subrange(0, N as int) == row@);
}

/// The shape of one attribute of a vertex: so many single-precision numbers.
#[derive(Clone, Copy, Debug, PartialEq, Eq, Structural)]
pub enum VertexFormat {
    Float32x2,
    Float32x3,
    Float32x4,
}

impl VertexFormat {
    /// The number of words of the format.
    pub open spec fn words(self) -> int {
        match self {
            VertexFormat::Float32x2 => 2,
            VertexFormat::Float32x3 => 3,
            VertexFormat::Float32x4 => 4,
        }
    }

    /// The number of bytes of the format: four for each word.
    pub fn size(&self) -> (r: u64)
        ensures
            r == 4 * self.words(),
    {
        match self {
            VertexFormat::Float32x2 => 8,
            VertexFormat::Float32x3 => 12,
            VertexFormat::Float32x4 => 16,
        }
    }
}

/// Whether a buffer is stepped through vertex by vertex or instance by
/// instance.
#[derive(Clone, Copy, Debug, PartialEq, Eq, Structural)]
pub enum VertexStepMode {
    Vertex,
    Instance,
}

/// One attribute of a record in a vertex buffer: where it starts in the
/// record, the location at which a shader finds it, and its shape.
#[derive(Clone, Copy, Debug, PartialEq, Eq, Structural)]
pub struct VertexAttribute {
    pub offset: u64,
    pub shader_location: u32,
    pub format: VertexFormat,
}

impl VertexAttribute {
    /// The byte after the last one of the attribute.
    pub open spec fn end(self) -> int {
        self.offset + 4 * self.format.words()
    }
}

/// How the records of a vertex buffer are laid out: the distance in bytes
/// from one record to the next, and the attributes of a record.
#[derive(Debug)]
pub struct VertexBufferLayout {
    pub array_stride: u64,
    pub step_mode: VertexStepMode,
    pub attributes: Vec<VertexAttribute>,
}

impl VertexBufferLayout {
    /// The attributes fill the record without gap or overlap: the first
    /// starts at 0, each next one where the one before ends, and the last
    /// ends at the stride. Their shader locations count up by one.
    pub open spec fn tiled(&self) -> bool {
        let attributes = self.attributes@;
        &&& attributes.len() > 0
        &&& attributes[0].offset == 0
        &&& forall|k: int|
            0 <= k < attributes.len() - 1 ==> (#[trigger] attributes[k + 1]).offset
                == attributes[k].end()
        &&& forall|k: int|
            0 <= k < attributes.len() - 1 ==> (#[trigger] attributes[k + 1]).shader_location
                == attributes[k].shader_location + 1
        &&& attributes[attributes.len() - 1].end() == self.array_stride
    }
}

} // verus!
