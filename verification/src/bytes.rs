use vstd::prelude::*;
use vstd::seq_lib::lemma_flatten_concat;

verus! {

/// The four bytes of `w`, least significant first.
pub open spec fn le_word_bytes(w: u32) -> Seq<u8> {
    seq![
        (w % 0x100) as u8,
        ((w / 0x100) % 0x100) as u8,
        ((w / 0x1_0000) % 0x100) as u8,
        (w / 0x100_0000) as u8,
    ]
}

/// The four bytes of `w`, most significant first.
pub open spec fn be_word_bytes(w: u32) -> Seq<u8> {
    seq![
        (w / 0x100_0000) as u8,
        ((w / 0x1_0000) % 0x100) as u8,
        ((w / 0x100) % 0x100) as u8,
        (w % 0x100) as u8,
    ]
}

/// `words` laid out in memory on a little-endian machine.
pub open spec fn le_bytes(words: Seq<u32>) -> Seq<u8> {
    words.map_values(|w: u32| le_word_bytes(w)).flatten()
}

/// `words` laid out in memory on a big-endian machine.
pub open spec fn be_bytes(words: Seq<u32>) -> Seq<u8> {
    words.map_values(|w: u32| be_word_bytes(w)).flatten()
}

/// Whether `bytes` is the memory image of `words` in one of the two byte
/// orders a machine can have: every word's four bytes in a row, words in order.
pub open spec fn is_memory_image(words: Seq<u32>, bytes: Seq<u8>) -> bool {
    bytes == le_bytes(words) || bytes == be_bytes(words)
}

/// `bytemuck::cast_slice::<u32, u8>`, copied out: the words' memory seen as bytes.
/// The contract claims that the result is the words' memory image in the
/// machine's byte order (little- or big-endian); which of the two is left
/// open, since it depends on the machine. `cast_slice` cannot fail from `u32`
/// to `u8`: the target alignment is 1 and every length divides evenly.
#[verifier::external_body]
fn cast_words_to_bytes(words: &[u32]) -> (bytes: Vec<u8>)
    ensures
        is_memory_image(words@, bytes@),
{
    bytemuck::cast_slice::<u32, u8>(words).to_vec()
}

/// The memory image of `words` is four bytes per word.
pub proof fn lemma_memory_image_len(words: Seq<u32>, bytes: Seq<u8>)
    requires
        is_memory_image(words, bytes),
    ensures
        bytes.len() == 4 * words.len(),
    decreases words.len(),
{
    broadcast use Seq::lemma_flatten_push;

    if words.len() > 0 {
        let init = words.drop_last();
        lemma_memory_image_len(init, le_bytes(init));
        lemma_memory_image_len(init, be_bytes(init));
        assert(words =~= init.push(words.last()));
        assert(words.map_values(|w: u32| le_word_bytes(w)) =~= init.map_values(
            |w: u32| le_word_bytes(w),
        ).push(le_word_bytes(words.last())));
        assert(words.map_values(|w: u32| be_word_bytes(w)) =~= init.map_values(
            |w: u32| be_word_bytes(w),
        ).push(be_word_bytes(words.last())));
    } else {
        assert(words.map_values(|w: u32| le_word_bytes(w)) =~= Seq::<Seq<u8>>::empty());
        assert(words.map_values(|w: u32| be_word_bytes(w)) =~= Seq::<Seq<u8>>::empty());
    }
}

proof fn lemma_le_bytes_concat(a: Seq<u32>, b: Seq<u32>)
    ensures
        le_bytes(a + b) == le_bytes(a) + le_bytes(b),
        be_bytes(a + b) == be_bytes(a) + be_bytes(b),
{
    assert((a + b).map_values(|w: u32| le_word_bytes(w)) =~= a.map_values(
        |w: u32| le_word_bytes(w),
    ) + b.map_values(|w: u32| le_word_bytes(w)));
    assert((a + b).map_values(|w: u32| be_word_bytes(w)) =~= a.map_values(
        |w: u32| be_word_bytes(w),
    ) + b.map_values(|w: u32| be_word_bytes(w)));
    lemma_flatten_concat(
        a.map_values(|w: u32| le_word_bytes(w)),
        b.map_values(|w: u32| le_word_bytes(w)),
    );
    lemma_flatten_concat(
        a.map_values(|w: u32| be_word_bytes(w)),
        b.map_values(|w: u32| be_word_bytes(w)),
    );
}

/// The memory image of two runs of words, one after the other, is the image
/// of the first run followed by the image of the second: the first run takes
/// the first four bytes per word, the second run the rest.
pub proof fn lemma_memory_image_split(a: Seq<u32>, b: Seq<u32>, bytes: Seq<u8>)
    requires
        is_memory_image(a + b, bytes),
    ensures
        is_memory_image(a, bytes.take(4 * a.len() as int)),
        is_memory_image(b, bytes.skip(4 * a.len() as int)),
{
    lemma_le_bytes_concat(a, b);
    lemma_memory_image_len(a, le_bytes(a));
    lemma_memory_image_len(a, be_bytes(a));
    if bytes == le_bytes(a + b) {
        assert(bytes.take(4 * a.len() as int) =~= le_bytes(a));
        assert(bytes.skip(4 * a.len() as int) =~= le_bytes(b));
    } else {
        assert(bytes.take(4 * a.len() as int) =~= be_bytes(a));
        assert(bytes.skip(4 * a.len() as int) =~= be_bytes(b));
    }
}

/// Contents of the index buffer: the indices' memory image.
pub fn index_buffer_contents(indices: &[u32]) -> (bytes: Vec<u8>)
    ensures
        is_memory_image(indices@, bytes@),
        bytes@.len() == 4 * indices@.len(),
{
    let bytes = cast_words_to_bytes(indices);
    proof {
        lemma_memory_image_len(indices@, bytes@);
    }
    bytes
}

/// The memory image of `words` as a vector of bytes.
pub(crate) fn words_to_bytes(words: &Vec<u32>) -> (bytes: Vec<u8>)
    ensures
        is_memory_image(words@, bytes@),
        bytes@.len() == 4 * words@.len(),
{
    let bytes = cast_words_to_bytes(words.as_slice());
    proof {
        lemma_memory_image_len(words@, bytes@);
    }
    bytes
}

} // verus!
