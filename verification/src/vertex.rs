//! The vertices of the static shapes and the form in which records reach the
//! graphics device.

use crate::bytes::{cast_words, is_word_image, word_bytes};
use crate::layout::{
    is_record_layout, record_layout, VertexBufferLayout, VertexStepMode, RECORD_WORDS,
};
use vstd::endian::Endian;
use vstd::prelude::*;

verus! {

/// A value that the graphics device reads as one record of six words.
pub trait Record: Sized {
    /// The six words of the record, in the order in which they lie in memory.
    spec fn words(&self) -> Seq<u32>;

    /// Appends the record's words to `out`.
    fn write(&self, out: &mut Vec<u32>)
        ensures
            self.words().len() == RECORD_WORDS,
            final(out)@ == old(out)@ + self.words(),
    ;
}

/// The words of `records`, one record after the other.
pub open spec fn record_words<R: Record>(records: Seq<R>) -> Seq<u32> {
    Seq::new(
        RECORD_WORDS as nat * records.len(),
        |j: int| records[j / RECORD_WORDS as int].words()[j % RECORD_WORDS as int],
    )
}

/// Lays `records` out as words, one record after the other.
pub fn flatten<R: Record>(records: &Vec<R>) -> (words: Vec<u32>)
    ensures
        words@ == record_words(records@),
{
    let mut words: Vec<u32> = Vec::new();
    let mut i: usize = 0;
    while i < records.len()
        invariant
            i <= records@.len(),
            words@ == record_words(records@.take(i as int)),
        decreases records@.len() - i,
    {
        records[i].write(&mut words);
        assert(words@ =~= record_words(records@.take(i + 1))) by {
            assert forall|j: int| 0 <= j < words@.len() implies words@[j] == record_words(
                records@.take(i + 1),
            )[j] by {
                if j >= 6 * i {
                    assert(j / 6 == i);
                }
            }
        }
        i = i + 1;
    }
    assert(records@.take(i as int) =~= records@);
    words
}

/// The bytes of a buffer that holds `records`: what is handed to the graphics
/// device.
pub fn buffer_contents<R: Record>(records: &Vec<R>) -> (bytes: Vec<u8>)
    ensures
        is_word_image(bytes@, record_words(records@)),
{
    let words = flatten(records);
    cast_words(&words)
}

/// A corner of a static shape: where it lies and what colour it has, each as
/// three single-precision bit patterns.
#[derive(Clone, Copy, Debug, PartialEq, Eq)]
pub struct Vertex {
    pub position: [u32; 3],
    pub color: [u32; 3],
}

impl Record for Vertex {
    open spec fn words(&self) -> Seq<u32> {
        self.position@ + self.color@
    }

    fn write(&self, out: &mut Vec<u32>) {
        out.push(self.position[0]);
        out.push(self.position[1]);
        out.push(self.position[2]);
        out.push(self.color[0]);
        out.push(self.color[1]);
        out.push(self.color[2]);
        assert(out@ =~= old(out)@ + self.words());
    }
}

impl Vertex {
    /// The layout of a buffer of vertices: stepped per vertex, position at
    /// shader location 0 and colour at location 1.
    pub fn desc() -> (layout: VertexBufferLayout)
        ensures
            is_record_layout(layout, VertexStepMode::Vertex, 0),
    {
        record_layout(VertexStepMode::Vertex, 0)
    }
}

/// A buffer of records holds one stride of bytes for each: 24 bytes, which is
/// `array_stride` of a record layout.
pub proof fn lemma_buffer_length<R: Record>(records: Seq<R>, bytes: Seq<u8>)
    requires
        is_word_image(bytes, record_words(records)),
    ensures
        bytes.len() == 24 * records.len(),
        24 == 4 * RECORD_WORDS,
{
    assert(record_words(records).len() == 6 * records.len());
}

/// In a buffer of records, word `w` of record `r` lies `4 * w` bytes into the
/// record, and the record lies `r` strides into the buffer.
pub proof fn lemma_word_in_buffer<R: Record>(records: Seq<R>, bytes: Seq<u8>, r: int, w: int)
    requires
        is_word_image(bytes, record_words(records)),
        0 <= r < records.len(),
        0 <= w < RECORD_WORDS,
    ensures
        24 * r + 4 * w + 4 <= bytes.len(),
        is_word_image(
            bytes.subrange(24 * r + 4 * w, 24 * r + 4 * w + 4),
            seq![records[r].words()[w]],
        ),
{
    let words = record_words(records);
    let at = 6 * r + w;
    let part = bytes.subrange(4 * at, 4 * at + 4);
    let word = seq![records[r].words()[w]];
    assert(words[at] == records[r].words()[w]) by {
        assert(at / 6 == r);
        assert(at % 6 == w);
    }
    if bytes == word_bytes(Endian::Little, words) {
        assert(part =~= word_bytes(Endian::Little, word)) by {
            assert forall|j: int| 0 <= j < 4 implies part[j] == word_bytes(
                Endian::Little,
                word,
            )[j] by {
                assert((4 * at + j) / 4 == at);
                assert((4 * at + j) % 4 == j);
            }
        }
    } else {
        assert(part =~= word_bytes(Endian::Big, word)) by {
            assert forall|j: int| 0 <= j < 4 implies part[j] == word_bytes(
                Endian::Big,
                word,
            )[j] by {
                assert((4 * at + j) / 4 == at);
                assert((4 * at + j) % 4 == j);
            }
        }
    }
}

/// The attributes of a record layout name the fields of a vertex: the words
/// from byte 0 of its record are its position, and the words from byte 12 are
/// its colour.
pub proof fn lemma_vertex_fields(vertex: Vertex)
    ensures
        vertex.words().len() == RECORD_WORDS,
        vertex.words().subrange(0, 3) == vertex.position@,
        vertex.words().subrange(3, 6) == vertex.color@,
{
    assert(vertex.words().subrange(0, 3) =~= vertex.position@);
    assert(vertex.words().subrange(3, 6) =~= vertex.color@);
}

} // verus!
