use vstd::prelude::*;

verus! {

/// Byte `j` of a word, counted from the least significant.
pub open spec fn spec_byte(w: u32, j: int) -> u8 {
    if j == 0 {
        (w & 0xFF) as u8
    } else if j == 1 {
        ((w >> 8) & 0xFF) as u8
    } else if j == 2 {
        ((w >> 16) & 0xFF) as u8
    } else {
        ((w >> 24) & 0xFF) as u8
    }
}

/// The bytes of a run of words, each word least significant byte first.
pub open spec fn spec_little_endian(words: Seq<u32>) -> Seq<u8> {
    Seq::new(4 * words.len(), |i: int| spec_byte(words[i / 4], i % 4))
}

/// The bytes of a run of words, each word most significant byte first.
pub open spec fn spec_big_endian(words: Seq<u32>) -> Seq<u8> {
    Seq::new(4 * words.len(), |i: int| spec_byte(words[i / 4], 3 - i % 4))
}

/// The bytes of a run of words in one of the two byte orders a host can
/// have.
pub open spec fn spec_in_memory(words: Seq<u32>, bytes: Seq<u8>) -> bool {
    bytes == spec_little_endian(words) || bytes == spec_big_endian(words)
}

/// Calls `bytemuck::cast_slice` from words to bytes and copies the result.
/// The crate documents that both slices cover the same memory: the bytes
/// are those of the words in the host's byte order, four for each word. The
/// cast cannot fail, a byte having the smallest alignment and a word being
/// a whole number of bytes.
#[verifier::external_body]
fn cast_words(words: &[u32]) -> (bytes: Vec<u8>)
    ensures
        spec_in_memory(words@, bytes@),
{
    bytemuck::cast_slice::<u32, u8>(words).to_vec()
}

/// The bytes of a run of words as they lie in memory, ready for upload.
pub fn words_to_bytes(words: &Vec<u32>) -> (bytes: Vec<u8>)
    ensures
        spec_in_memory(words@, bytes@),
        bytes@.len() == 4 * words@.len(),
{
    cast_words(words.as_slice())
}

} // verus!
