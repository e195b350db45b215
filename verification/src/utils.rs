//! What is uploaded into a device buffer at creation.

use vstd::prelude::*;
use crate::cell::{cell_words, flatten_cells, Cell};

verus! {

/// The four bytes of a word, least significant first or most significant first.
pub open spec fn word_bytes(w: u32, big_endian: bool) -> Seq<u8> {
    let b0 = (w % 0x100) as u8;
    let b1 = (w / 0x100 % 0x100) as u8;
    let b2 = (w / 0x1_0000 % 0x100) as u8;
    let b3 = (w / 0x100_0000) as u8;
    if big_endian {
        seq![b3, b2, b1, b0]
    } else {
        seq![b0, b1, b2, b3]
    }
}

/// `bytes` holds the words of `words` one after another, four bytes each, all in the same
/// byte order.
pub open spec fn image_of(words: Seq<u32>, bytes: Seq<u8>, big_endian: bool) -> bool {
    &&& bytes.len() == 4 * words.len()
    &&& forall|i: int|
        0 <= i < words.len() ==> #[trigger] bytes.subrange(4 * i, 4 * i + 4) == word_bytes(
            words[i],
            big_endian,
        )
}

/// `bytes` is how `words` lie in memory on some machine: little-endian or big-endian.
pub open spec fn native_image(words: Seq<u32>, bytes: Seq<u8>) -> bool {
    image_of(words, bytes, false) || image_of(words, bytes, true)
}

/// How the device may use a buffer. Every buffer can also be copied into.
#[derive(Clone, Copy, Debug, PartialEq, Eq, Structural)]
pub enum BufferUsage {
    /// A small read-only block of parameters.
    Uniform,
    /// An array that compute programs read and write.
    Storage,
}

/// A buffer to create on the device: its label, its first contents and its usage.
#[derive(Debug)]
pub struct BufferInit {
    pub label: Option<&'static str>,
    pub contents: Vec<u8>,
    pub usage: BufferUsage,
}

/// Reinterprets words as the bytes they occupy in memory, with `bytemuck::cast_slice`.
///
/// Trusted: the cast from `u32` to `u8` cannot fail, since a byte has no alignment and
/// divides every size; the result covers the same memory, so it is four times as long and
/// holds each word in the machine's byte order.
#[verifier::external_body]
fn words_as_bytes(words: &[u32]) -> (bytes: Vec<u8>)
    ensures
        native_image(words@, bytes@),
{
    bytemuck::cast_slice::<u32, u8>(words).to_vec()
}

/// Describes a uniform buffer that starts out holding `data`.
pub fn create_uniform_buffer(data: &[u32], label: Option<&'static str>) -> (r: BufferInit)
    ensures
        r.label == label,
        r.usage == BufferUsage::Uniform,
        native_image(data@, r.contents@),
{
    BufferInit { label, contents: words_as_bytes(data), usage: BufferUsage::Uniform }
}

/// Describes a storage buffer that starts out holding the records of `data`.
pub fn create_storage_buffer_with_data(data: &[Cell], label: Option<&'static str>) -> (r:
    BufferInit)
    ensures
        r.label == label,
        r.usage == BufferUsage::Storage,
        native_image(cell_words(data@), r.contents@),
        r.contents@.len() == 20 * data@.len(),
{
    let words = flatten_cells(data);
    BufferInit { label, contents: words_as_bytes(words.as_slice()), usage: BufferUsage::Storage }
}

} // verus!
