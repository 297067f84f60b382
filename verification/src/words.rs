//! Words and their bytes: how a sequence of 32-bit words lies in memory.
//!
//! The device takes and returns raw bytes. The host reinterprets them in its
//! own byte order, which on every supported machine is either little-endian
//! or big-endian.

use vstd::prelude::*;

verus! {

/// The word that four bytes spell, least significant byte first.
pub open spec fn word_le(b0: u8, b1: u8, b2: u8, b3: u8) -> u32 {
    (b0 as int + 0x100 * b1 as int + 0x1_0000 * b2 as int + 0x100_0000 * b3 as int) as u32
}

/// The word that four bytes spell, most significant byte first.
pub open spec fn word_be(b0: u8, b1: u8, b2: u8, b3: u8) -> u32 {
    word_le(b3, b2, b1, b0)
}

/// `bytes` holds `words` in little-endian order, four bytes to a word.
pub open spec fn reads_le(bytes: Seq<u8>, words: Seq<u32>) -> bool {
    &&& bytes.len() == 4 * words.len()
    &&& forall|i: int|
        0 <= i < words.len() ==> #[trigger] words[i] == word_le(
            bytes[4 * i],
            bytes[4 * i + 1],
            bytes[4 * i + 2],
            bytes[4 * i + 3],
        )
}

/// `bytes` holds `words` in big-endian order, four bytes to a word.
pub open spec fn reads_be(bytes: Seq<u8>, words: Seq<u32>) -> bool {
    &&& bytes.len() == 4 * words.len()
    &&& forall|i: int|
        0 <= i < words.len() ==> #[trigger] words[i] == word_be(
            bytes[4 * i],
            bytes[4 * i + 1],
            bytes[4 * i + 2],
            bytes[4 * i + 3],
        )
}

/// `bytes` is the memory image of `words` in one of the two byte orders a
/// host can have; the same order for every word.
pub open spec fn is_native_image(bytes: Seq<u8>, words: Seq<u32>) -> bool {
    reads_le(bytes, words) || reads_be(bytes, words)
}

/// `bytemuck::cast_slice` from `u32` to `u8`, copied into a vector. The cast
/// hands back the memory of the words as bytes: four bytes for each word, in
/// the byte order of the host. Casting down to bytes cannot fail, since bytes
/// need no alignment and any length is a whole number of them.
#[verifier::external_body]
pub(crate) fn cast_words_to_bytes(words: &[u32]) -> (bytes: Vec<u8>)
    ensures
        is_native_image(bytes@, words@),
{
    bytemuck::cast_slice::<u32, u8>(words).to_vec()
}

/// `bytemuck::pod_collect_to_vec` from `u8` to `u32`. It copies the bytes
/// into freshly allocated words, whatever the alignment of the source: one
/// word for every four bytes, read in the byte order of the host. Here the
/// length is a whole number of words, so nothing is padded.
#[verifier::external_body]
pub(crate) fn collect_bytes_to_words(bytes: &[u8]) -> (words: Vec<u32>)
    requires
        bytes@.len() % 4 == 0,
    ensures
        is_native_image(bytes@, words@),
{
    bytemuck::pod_collect_to_vec::<u8, u32>(bytes)
}

/// Different bytes spell different words.
pub proof fn lemma_word_le_injective(a0: u8, a1: u8, a2: u8, a3: u8, b0: u8, b1: u8, b2: u8, b3: u8)
    requires
        word_le(a0, a1, a2, a3) == word_le(b0, b1, b2, b3),
    ensures
        a0 == b0 && a1 == b1 && a2 == b2 && a3 == b3,
{
}

/// In either byte order the bytes fix the words: two readings of the same
/// bytes in the same order agree.
pub proof fn lemma_bytes_fix_words(bytes: Seq<u8>, first: Seq<u32>, second: Seq<u32>)
    requires
        reads_le(bytes, first) && reads_le(bytes, second) || reads_be(bytes, first) && reads_be(
            bytes,
            second,
        ),
    ensures
        first =~= second,
{
}

/// In either byte order the words fix the bytes: two images of the same words
/// in the same order agree.
pub proof fn lemma_words_fix_bytes(words: Seq<u32>, first: Seq<u8>, second: Seq<u8>)
    requires
        reads_le(first, words) && reads_le(second, words) || reads_be(first, words) && reads_be(
            second,
            words,
        ),
    ensures
        first =~= second,
{
    assert forall|k: int| 0 <= k < first.len() implies first[k] == second[k] by {
        let i = k / 4;
        assert(0 <= i < words.len());
        let w = words[i];
        if reads_le(first, words) && reads_le(second, words) {
            lemma_word_le_injective(
                first[4 * i],
                first[4 * i + 1],
                first[4 * i + 2],
                first[4 * i + 3],
                second[4 * i],
                second[4 * i + 1],
                second[4 * i + 2],
                second[4 * i + 3],
            );
        } else {
            lemma_word_le_injective(
                first[4 * i + 3],
                first[4 * i + 2],
                first[4 * i + 1],
                first[4 * i],
                second[4 * i + 3],
                second[4 * i + 2],
                second[4 * i + 1],
                second[4 * i],
            );
        }
        assert(k == 4 * i || k == 4 * i + 1 || k == 4 * i + 2 || k == 4 * i + 3);
    }
}

} // verus!
