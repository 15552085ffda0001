//! Words and half-words as the bytes of a device buffer.
//!
//! Buffers hold 32-bit words and 16-bit indices in little-endian order, least
//! significant byte first.

use vstd::prelude::*;

verus! {

/// Byte `k` of `word`, byte 0 being the least significant.
pub open spec fn word_byte(word: u32, k: int) -> u8 {
    if k == 0 {
        (word as int % 0x100) as u8
    } else if k == 1 {
        (word as int / 0x100 % 0x100) as u8
    } else if k == 2 {
        (word as int / 0x1_0000 % 0x100) as u8
    } else {
        (word as int / 0x100_0000 % 0x100) as u8
    }
}

/// The bytes of `words`, four to a word.
pub open spec fn words_to_bytes(words: Seq<u32>) -> Seq<u8> {
    Seq::new(4 * words.len(), |i: int| word_byte(words[i / 4], i % 4))
}

/// The word that the four bytes from offset `4 * i` spell.
pub open spec fn word_at(bytes: Seq<u8>, i: int) -> u32 {
    (bytes[4 * i] as int + 0x100 * bytes[4 * i + 1] as int + 0x1_0000 * bytes[4 * i + 2] as int
        + 0x100_0000 * bytes[4 * i + 3] as int) as u32
}

/// The whole words that `bytes` spells; up to three bytes at the end are left
/// over.
pub open spec fn bytes_to_words(bytes: Seq<u8>) -> Seq<u32> {
    Seq::new((bytes.len() / 4) as nat, |i: int| word_at(bytes, i))
}

/// The bytes of `halves`, two to a half-word.
pub open spec fn halves_to_bytes(halves: Seq<u16>) -> Seq<u8> {
    Seq::new(
        2 * halves.len(),
        |i: int|
            if i % 2 == 0 {
                (halves[i / 2] as int % 0x100) as u8
            } else {
                (halves[i / 2] as int / 0x100) as u8
            },
    )
}

/// Reading back the bytes of a sequence of words gives the words.
pub proof fn lemma_words_round_trip(words: Seq<u32>)
    ensures
        words_to_bytes(words).len() == 4 * words.len(),
        bytes_to_words(words_to_bytes(words)) == words,
{
    let bytes = words_to_bytes(words);
    assert forall|i: int| 0 <= i < words.len() implies word_at(bytes, i) == words[i] by {
        let w = words[i];
        assert(bytes[4 * i] == word_byte(w, 0));
        assert(bytes[4 * i + 1] == word_byte(w, 1));
        assert(bytes[4 * i + 2] == word_byte(w, 2));
        assert(bytes[4 * i + 3] == word_byte(w, 3));
    }
    assert(bytes_to_words(bytes) =~= words);
}

/// The bytes of two runs of words, one after the other, are the bytes of the
/// runs joined.
pub proof fn lemma_words_to_bytes_concat(a: Seq<u32>, b: Seq<u32>)
    ensures
        words_to_bytes(a + b) == words_to_bytes(a) + words_to_bytes(b),
{
    let joined = words_to_bytes(a) + words_to_bytes(b);
    assert forall|i: int| 0 <= i < 4 * (a + b).len() implies words_to_bytes(a + b)[i]
        == joined[i] by {
        if i >= 4 * a.len() {
            assert((i - 4 * a.len()) / 4 == i / 4 - a.len());
            assert((i - 4 * a.len()) % 4 == i % 4);
        }
    }
    assert(words_to_bytes(a + b) =~= joined);
}

/// Appends the four bytes of `word` to `out`.
pub fn push_word(out: &mut Vec<u8>, word: u32)
    ensures
        final(out)@ == old(out)@ + words_to_bytes(seq![word]),
{
    out.push((word % 0x100) as u8);
    out.push((word / 0x100 % 0x100) as u8);
    out.push((word / 0x1_0000 % 0x100) as u8);
    out.push((word / 0x100_0000 % 0x100) as u8);
    assert(out@ =~= old(out)@ + words_to_bytes(seq![word]));
}

/// Appends the bytes of each of `words` to `out`.
pub fn push_words(out: &mut Vec<u8>, words: &[u32])
    ensures
        final(out)@ == old(out)@ + words_to_bytes(words@),
{
    let mut k: usize = 0;
    assert(words@.take(0) =~= Seq::<u32>::empty());
    assert(out@ =~= old(out)@ + words_to_bytes(words@.take(0)));
    while k < words.len()
        invariant
            k <= words.len(),
            out@ == old(out)@ + words_to_bytes(words@.take(k as int)),
        decreases words.len() - k,
    {
        push_word(out, words[k]);
        proof {
            assert(words@.take(k + 1) =~= words@.take(k as int) + seq![words@[k as int]]);
            lemma_words_to_bytes_concat(words@.take(k as int), seq![words@[k as int]]);
            assert(out@ =~= old(out)@ + words_to_bytes(words@.take(k + 1)));
        }
        k = k + 1;
    }
    assert(words@.take(k as int) =~= words@);
}

/// Appends the two bytes of each of `halves` to `out`.
pub fn push_halves(out: &mut Vec<u8>, halves: &[u16])
    ensures
        final(out)@ == old(out)@ + halves_to_bytes(halves@),
{
    let mut k: usize = 0;
    assert(out@ =~= old(out)@ + halves_to_bytes(halves@.take(0)));
    while k < halves.len()
        invariant
            k <= halves.len(),
            out@ == old(out)@ + halves_to_bytes(halves@.take(k as int)),
        decreases halves.len() - k,
    {
        let half: u16 = halves[k];
        out.push((half % 0x100) as u8);
        out.push((half / 0x100) as u8);
        assert(out@ =~= old(out)@ + halves_to_bytes(halves@.take(k + 1)));
        k = k + 1;
    }
    assert(halves@.take(k as int) =~= halves@);
}

/// Reads word `i` of `bytes`.
pub fn read_word(bytes: &[u8], i: usize) -> (word: u32)
    requires
        4 * i + 4 <= bytes.len(),
    ensures
        word == word_at(bytes@, i as int),
{
    let at: usize = 4 * i;
    let b0: u32 = bytes[at] as u32;
    let b1: u32 = bytes[at + 1] as u32;
    let b2: u32 = bytes[at + 2] as u32;
    let b3: u32 = bytes[at + 3] as u32;
    b0 + 0x100 * b1 + 0x1_0000 * b2 + 0x100_0000 * b3
}

} // verus!
