//! The bytes in which words reach the GPU.

use vstd::prelude::*;

verus! {

/// The order in which a machine stores the bytes of a word.
#[derive(Clone, Copy, Debug, PartialEq, Eq, Structural)]
pub enum ByteOrder {
    Little,
    Big,
}

/// The byte of `word` that is worth `256` to the power of `place`.
pub open spec fn byte_at_place(word: u32, place: int) -> u8 {
    if place == 0 {
        (word % 256) as u8
    } else if place == 1 {
        ((word / 256) % 256) as u8
    } else if place == 2 {
        ((word / 65536) % 256) as u8
    } else {
        (word / 16777216) as u8
    }
}

/// The byte of `word` that is stored at offset `i`, for `i` from 0 to 3.
pub open spec fn stored_byte(order: ByteOrder, word: u32, i: int) -> u8 {
    match order {
        ByteOrder::Little => byte_at_place(word, i),
        ByteOrder::Big => byte_at_place(word, 3 - i),
    }
}

/// The bytes in which `words` are stored one after another.
pub open spec fn stored_bytes(order: ByteOrder, words: Seq<u32>) -> Seq<u8> {
    Seq::new(4 * words.len(), |i: int| stored_byte(order, words[i / 4], i % 4))
}

/// `bytes` is `words` as this machine stores them, in one of the two orders.
pub open spec fn is_stored(bytes: Seq<u8>, words: Seq<u32>) -> bool {
    ||| bytes == stored_bytes(ByteOrder::Little, words)
    ||| bytes == stored_bytes(ByteOrder::Big, words)
}

/// The word whose stored bytes begin at offset `at` of `bytes`.
pub open spec fn loaded_word(order: ByteOrder, bytes: Seq<u8>, at: int) -> int {
    match order {
        ByteOrder::Little => bytes[at] + 256 * bytes[at + 1] + 65536 * bytes[at + 2] + 16777216
            * bytes[at + 3],
        ByteOrder::Big => bytes[at + 3] + 256 * bytes[at + 2] + 65536 * bytes[at + 1] + 16777216
            * bytes[at],
    }
}

/// Calls `bytemuck::cast_slice`, from words to bytes, and copies what it
/// returns. The cast looks at the same memory as bytes: four bytes for each
/// word, in the order in which the machine stores them. It cannot panic, since
/// bytes need no alignment and every word is a whole number of them.
///
/// Which of the two orders the machine has is not said.
#[verifier::external_body]
fn cast_words(words: &Vec<u32>) -> (bytes: Vec<u8>)
    ensures
        is_stored(bytes@, words@),
{
    bytemuck::cast_slice::<u32, u8>(words.as_slice()).to_vec()
}

/// `bytes` is what `bytemuck::cast_slice` makes of `words`, and so in the order
/// of this machine, whichever that is.
pub closed spec fn is_cast(bytes: Vec<u8>, words: Seq<u32>) -> bool {
    exists|held: Vec<u32>|
        #![trigger held@]
        held@ == words && call_ensures(cast_words, (&held,), bytes)
}

/// The words as this machine stores them.
pub(crate) fn machine_bytes(words: &Vec<u32>) -> (bytes: Vec<u8>)
    ensures
        is_cast(bytes, words@),
        is_stored(bytes@, words@),
{
    cast_words(words)
}

/// What the cast makes of words is those words, stored in one of the two orders.
pub proof fn law_cast_stores_words(bytes: Vec<u8>, words: Seq<u32>)
    requires
        is_cast(bytes, words),
    ensures
        is_stored(bytes@, words),
{
}

proof fn lemma_places_make_word(word: u32)
    ensures
        byte_at_place(word, 0) + 256 * byte_at_place(word, 1) + 65536 * byte_at_place(word, 2)
            + 16777216 * byte_at_place(word, 3) == word,
{
    let b0 = word % 256;
    let b1 = (word / 256) % 256;
    let b2 = (word / 65536) % 256;
    let b3 = word / 16777216;
    assert(b0 + 256 * b1 + 65536 * b2 + 16777216 * b3 == word && b3 < 256) by (bit_vector)
        requires
            b0 == word % 256,
            b1 == (word / 256) % 256,
            b2 == (word / 65536) % 256,
            b3 == word / 16777216,
    ;
}

/// Loading word `i` from where it was stored gives it back, as long as it is
/// loaded in the order in which it was stored.
pub proof fn law_load_gives_back_store(order: ByteOrder, words: Seq<u32>, i: int)
    requires
        0 <= i < words.len(),
    ensures
        loaded_word(order, stored_bytes(order, words), 4 * i) == words[i],
{
    let bytes = stored_bytes(order, words);
    let word = words[i];
    assert forall|k: int| 0 <= k < 4 implies #[trigger] bytes[4 * i + k] == stored_byte(
        order,
        word,
        k,
    ) by {
        assert((4 * i + k) / 4 == i);
        assert((4 * i + k) % 4 == k);
    }
    assert(bytes[4 * i + 0] == stored_byte(order, word, 0));
    assert(bytes[4 * i + 1] == stored_byte(order, word, 1));
    assert(bytes[4 * i + 2] == stored_byte(order, word, 2));
    assert(bytes[4 * i + 3] == stored_byte(order, word, 3));
    lemma_places_make_word(word);
}

/// Different words are stored as different bytes.
pub proof fn law_store_is_injective(order: ByteOrder, a: Seq<u32>, b: Seq<u32>)
    requires
        stored_bytes(order, a) == stored_bytes(order, b),
    ensures
        a == b,
{
    assert(stored_bytes(order, a).len() == 4 * a.len());
    assert(stored_bytes(order, b).len() == 4 * b.len());
    assert forall|i: int| 0 <= i < a.len() implies a[i] == b[i] by {
        law_load_gives_back_store(order, a, i);
        law_load_gives_back_store(order, b, i);
    }
}

} // verus!
