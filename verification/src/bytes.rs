use vstd::prelude::*;

verus! {

/// Size in bytes of one `f32` value as the shaders store it.
pub const FLOAT_BYTES: u64 = 4;

/// The little-endian value of the four bytes of `b` starting at `start`.
pub open spec fn spec_le_word(b: Seq<u8>, start: int) -> u32 {
    (b[start] as int + 256 * b[start + 1] as int + 65536 * b[start + 2] as int
        + 16777216 * b[start + 3] as int) as u32
}

/// Decodes `bytes[start..end]` as consecutive little-endian 32-bit words; a
/// trailing remainder of fewer than four bytes is ignored. The words are
/// the bit patterns of the `f32` values that a readback buffer holds.
pub fn le_words_in(bytes: &[u8], start: usize, end: usize) -> (words: Vec<u32>)
    requires
        start <= end <= bytes@.len(),
    ensures
        words@.len() == (end - start) / 4,
        forall|i: int| 0 <= i < words@.len() ==> #[trigger] words@[i] == spec_le_word(bytes@, start + 4 * i),
{
    let n = (end - start) / 4;
    let mut words: Vec<u32> = Vec::with_capacity(n);
    let mut i: usize = 0;
    while i < n
        invariant
            start <= end <= bytes@.len(),
            n == (end - start) / 4,
            i <= n,
            words@.len() == i,
            forall|k: int| 0 <= k < i ==> #[trigger] words@[k] == spec_le_word(bytes@, start + 4 * k),
        decreases n - i,
    {
        assert(start + 4 * i + 3 < end);
        let base = start + 4 * i;
        let w: u32 = bytes[base] as u32 + 256 * (bytes[base + 1] as u32) + 65536 * (bytes[base + 2] as u32)
            + 16777216 * (bytes[base + 3] as u32);
        words.push(w);
        i += 1;
    }
    words
}

/// Decodes all of `bytes` as little-endian 32-bit words (the `f32` bit
/// patterns of a readback); a trailing remainder of fewer than four bytes
/// is ignored.
pub fn le_words_from_bytes(bytes: &[u8]) -> (words: Vec<u32>)
    ensures
        words@.len() == bytes@.len() / 4,
        forall|i: int| 0 <= i < words@.len() ==> #[trigger] words@[i] == spec_le_word(bytes@, 4 * i),
{
    le_words_in(bytes, 0, bytes.len())
}

/// The four bytes of `w`, least significant first when `le`, most
/// significant first otherwise.
pub open spec fn spec_word_bytes(w: u32, le: bool) -> Seq<u8> {
    let b = seq![(w % 256) as u8, ((w / 256) % 256) as u8, ((w / 65536) % 256) as u8, (w / 16777216) as u8];
    if le {
        b
    } else {
        seq![b[3], b[2], b[1], b[0]]
    }
}

/// `bytes` holds the `words` one after another, four bytes each, all in
/// the same byte order (`le`: little-endian).
pub open spec fn words_encoded(bytes: Seq<u8>, words: Seq<u32>, le: bool) -> bool {
    &&& bytes.len() == 4 * words.len()
    &&& forall|i: int| 0 <= i < words.len() ==> bytes.subrange(4 * i, 4 * i + 4) == spec_word_bytes(#[trigger] words[i], le)
}

/// The little-endian decoding of `bytes`, one word per four bytes; a
/// trailing remainder of fewer than four bytes is ignored.
pub open spec fn spec_le_words(bytes: Seq<u8>) -> Seq<u32> {
    Seq::new(bytes.len() / 4, |i: int| spec_le_word(bytes, 4 * i))
}

/// `bytemuck::cast_slice::<u32, u8>`, then `to_vec`: the bytes of `words` as
/// they lie in memory, each word's four bytes in turn, all in the machine's
/// byte order. Which byte order that is the contract leaves open: it is a
/// property of the machine, not of the arguments.
#[verifier::external_body]
fn cast_words_to_bytes(words: &[u32]) -> (bytes: Vec<u8>)
    ensures
        exists|le: bool| words_encoded(bytes@, words@, le),
{
    bytemuck::cast_slice::<u32, u8>(words).to_vec()
}

/// The bytes of a GPU buffer made of the 32-bit `words` (a uniform block,
/// or `f32` values given by their bits): each word's four bytes in turn, in
/// the machine's byte order.
pub fn words_to_bytes(words: &Vec<u32>) -> (bytes: Vec<u8>)
    ensures
        exists|le: bool| words_encoded(bytes@, words@, le),
        bytes@.len() == 4 * words@.len(),
{
    cast_words_to_bytes(words.as_slice())
}

/// Little-endian bytes decode back to the words they encode.
pub proof fn lemma_le_round_trip(bytes: Seq<u8>, words: Seq<u32>)
    requires
        words_encoded(bytes, words, true),
    ensures
        spec_le_words(bytes) == words,
{
    assert forall|i: int| 0 <= i < words.len() implies #[trigger] spec_le_words(bytes)[i] == words[i] by {
        let w = words[i];
        let chunk = bytes.subrange(4 * i, 4 * i + 4);
        assert(chunk == spec_word_bytes(w, true));
        assert(bytes[4 * i] == chunk[0]);
        assert(bytes[4 * i + 1] == chunk[1]);
        assert(bytes[4 * i + 2] == chunk[2]);
        assert(bytes[4 * i + 3] == chunk[3]);
        assert((w % 256) as int + 256 * ((w / 256) % 256) as int + 65536 * ((w / 65536) % 256) as int
            + 16777216 * (w / 16777216) as int == w as int) by (bit_vector);
    }
    assert(spec_le_words(bytes) =~= words);
}

} // verus!
