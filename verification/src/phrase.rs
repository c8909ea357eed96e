//! The mnemonic: drawing the entropy, encoding it as words, checking what
//! the encoder returned, and stretching the words into the seed.

use crate::error::KeygenError;
use crate::text::free_of;
use vstd::prelude::*;

verus! {

/// The mnemonic code of the `bip39` crate, carried as an opaque value.
#[verifier::external_type_specification]
#[verifier::external_body]
pub struct ExMnemonic(bip39::Mnemonic);

/// The error of the `bip39` crate.
#[verifier::external_type_specification]
#[verifier::external_body]
pub struct ExMnemonicError(bip39::Error);

/// The error of the `getrandom` crate.
#[verifier::external_type_specification]
#[verifier::external_body]
pub struct ExRandomError(getrandom::Error);

/// The words that a mnemonic holds, in order.
pub uninterp spec fn mnemonic_words(m: bip39::Mnemonic) -> Seq<Seq<char>>;

/// What the encoder makes of an entropy: the words of the mnemonic, or
/// nothing where it rejects the entropy.
pub uninterp spec fn entropy_encoding(entropy: Seq<u8>) -> Option<Seq<Seq<char>>>;

/// The seed that key stretching derives from the words of a mnemonic and a
/// passphrase.
pub uninterp spec fn seed_bytes(words: Seq<Seq<char>>, passphrase: Seq<char>) -> Seq<u8>;

/// The number of bytes of entropy behind a mnemonic.
pub const ENTROPY_BYTES: usize = 32;

/// The number of words of a mnemonic.
pub const WORD_COUNT: usize = 24;

/// The number of bytes of a seed.
pub const SEED_BYTES: usize = 64;

/// The sizes of entropy that the encoder takes: a whole number of 32-bit
/// groups, from 128 to 256 bits.
pub open spec fn encodable_len(n: nat) -> bool {
    n % 4 == 0 && 16 <= n <= 32
}

/// A word as the word list has them: at least one letter, and nothing but
/// the letters `a` to `z`.
pub open spec fn plain_word(word: Seq<char>) -> bool {
    &&& word.len() >= 1
    &&& forall|i: int| 0 <= i < word.len() ==> 'a' <= #[trigger] word[i] <= 'z'
}

/// A well-formed phrase: twenty-four plain words.
pub open spec fn valid_phrase(words: Seq<Seq<char>>) -> bool {
    &&& words.len() == WORD_COUNT
    &&& forall|i: int| 0 <= i < words.len() ==> plain_word(#[trigger] words[i])
}

/// No word of a well-formed phrase is empty or holds a line feed.
pub proof fn lemma_valid_phrase_words(words: Seq<Seq<char>>)
    requires
        valid_phrase(words),
    ensures
        words.len() == 24,
        forall|i: int| 0 <= i < words.len() ==> (#[trigger] words[i]).len() >= 1,
        forall|i: int| 0 <= i < words.len() ==> free_of(#[trigger] words[i], '\n'),
{
    assert forall|i: int| 0 <= i < words.len() implies free_of(#[trigger] words[i], '\n') by {
        assert(plain_word(words[i]));
    }
}

/// Fills `buffer` through `getrandom::fill`. The bytes come from the random
/// source of the operating system, so nothing is claimed of them, nor of
/// whether the source answers.
#[verifier::external_body]
fn fill_random(buffer: &mut [u8; 32]) -> (r: Result<(), getrandom::Error>) {
    getrandom::fill(buffer)
}

/// Calls `bip39::Mnemonic::from_entropy`. Whether the entropy is accepted,
/// and with which words, depends on the entropy alone. The encoder accepts
/// exactly the sizes of `encodable_len`, and gives three words for every
/// four bytes.
#[verifier::external_body]
fn encode_entropy(entropy: &[u8]) -> (r: Result<bip39::Mnemonic, bip39::Error>)
    ensures
        match r {
            Ok(m) => {
                &&& entropy_encoding(entropy@) == Some(mnemonic_words(m))
                &&& encodable_len(entropy@.len())
                &&& mnemonic_words(m).len() == entropy@.len() * 3 / 4
            },
            Err(_) => entropy_encoding(entropy@) is None && !encodable_len(entropy@.len()),
        },
{
    bip39::Mnemonic::from_entropy(entropy)
}

/// Hands out the words of a mnemonic through `bip39::Mnemonic::words`, each
/// as a string of its own.
#[verifier::external_body]
pub(crate) fn collect_words(m: &bip39::Mnemonic) -> (words: Vec<String>)
    ensures
        words.deep_view() == mnemonic_words(*m),
{
    m.words().map(String::from).collect()
}

/// Calls `bip39::Mnemonic::to_seed`: PBKDF2 over the words, salted with the
/// passphrase. The seed depends on the words and the passphrase alone.
#[verifier::external_body]
fn stretch(m: &bip39::Mnemonic, passphrase: &str) -> (seed: [u8; 64])
    ensures
        seed@ == seed_bytes(mnemonic_words(*m), passphrase@),
{
    m.to_seed(passphrase)
}

/// Whether `word` is a plain word.
pub fn is_plain_word(word: &str) -> (ok: bool)
    ensures
        ok == plain_word(word@),
{
    if word.is_empty() {
        return false;
    }
    for c in it: word.chars()
        invariant
            it.seq() == word@,
            forall|j: int| 0 <= j < it.index() ==> 'a' <= #[trigger] word@[j] <= 'z',
    {
        if c < 'a' || c > 'z' {
            return false;
        }
    }
    true
}

/// Whether `words` are a well-formed phrase.
pub fn is_valid_phrase(words: &Vec<String>) -> (ok: bool)
    ensures
        ok == valid_phrase(words.deep_view()),
{
    if words.len() != WORD_COUNT {
        return false;
    }
    let ghost texts = words.deep_view();
    let mut i: usize = 0;
    while i < words.len()
        invariant
            i <= words.len(),
            texts == words.deep_view(),
            forall|j: int| 0 <= j < i ==> plain_word(#[trigger] texts[j]),
        decreases words.len() - i,
    {
        if !is_plain_word(words[i].as_str()) {
            assert(!plain_word(texts[i as int]));
            return false;
        }
        i = i + 1;
    }
    true
}

/// Accepts a mnemonic if its words are a well-formed phrase, and rejects it
/// as badly encoded otherwise.
pub fn checked_mnemonic(m: bip39::Mnemonic) -> (r: Result<bip39::Mnemonic, KeygenError>)
    ensures
        match r {
            Ok(kept) => kept == m && valid_phrase(mnemonic_words(m)),
            Err(e) => e == KeygenError::EncodingFailure && !valid_phrase(mnemonic_words(m)),
        },
{
    let words = collect_words(&m);
    if is_valid_phrase(&words) {
        Ok(m)
    } else {
        Err(KeygenError::EncodingFailure)
    }
}

/// The outcome of encoding `entropy`: the words, where the encoder accepts
/// the entropy and its words are a well-formed phrase.
pub open spec fn phrase_of(entropy: Seq<u8>) -> Result<Seq<Seq<char>>, KeygenError> {
    match entropy_encoding(entropy) {
        Some(words) => if valid_phrase(words) {
            Ok(words)
        } else {
            Err(KeygenError::EncodingFailure)
        },
        None => Err(KeygenError::EncodingFailure),
    }
}

/// Encodes `entropy` as a mnemonic and checks the words that come back.
/// Entropy of any size but thirty-two bytes is rejected: the encoder takes
/// no other size that gives twenty-four words.
pub fn mnemonic_from_entropy(entropy: &[u8]) -> (r: Result<bip39::Mnemonic, KeygenError>)
    ensures
        match r {
            Ok(m) => phrase_of(entropy@) == Ok::<Seq<Seq<char>>, KeygenError>(mnemonic_words(m)),
            Err(e) => phrase_of(entropy@) == Err::<Seq<Seq<char>>, KeygenError>(e),
        },
        entropy@.len() != ENTROPY_BYTES ==> r is Err,
{
    match encode_entropy(entropy) {
        Ok(m) => checked_mnemonic(m),
        Err(_) => Err(KeygenError::EncodingFailure),
    }
}

/// Draws thirty-two bytes of fresh entropy from the secure random source.
pub fn draw_entropy() -> (r: Result<[u8; 32], KeygenError>)
    ensures
        r matches Err(e) ==> e == KeygenError::EntropyFailure,
{
    let mut entropy = [0u8; 32];
    let answer = fill_random(&mut entropy);
    entropy_outcome(answer, entropy)
}

/// What a draw gives, once the random source has answered: the buffer as
/// the source left it where the source succeeded, and an entropy failure
/// where it did not.
pub fn entropy_outcome(answer: Result<(), getrandom::Error>, buffer: [u8; 32]) -> (r: Result<
    [u8; 32],
    KeygenError,
>)
    ensures
        r == (match answer {
            Ok(_) => Ok::<[u8; 32], KeygenError>(buffer),
            Err(_) => Err::<[u8; 32], KeygenError>(KeygenError::EntropyFailure),
        }),
{
    match answer {
        Ok(_) => Ok(buffer),
        Err(_) => Err(KeygenError::EntropyFailure),
    }
}

/// Draws thirty-two bytes of fresh entropy and encodes them as a mnemonic
/// of twenty-four words.
pub fn generate_mnemonic() -> (r: Result<bip39::Mnemonic, KeygenError>)
    ensures
        match r {
            Ok(m) => valid_phrase(mnemonic_words(m)) && exists|entropy: Seq<u8>|
                entropy.len() == ENTROPY_BYTES && #[trigger] phrase_of(entropy) == Ok::<
                    Seq<Seq<char>>,
                    KeygenError,
                >(mnemonic_words(m)),
            Err(e) => e == KeygenError::EntropyFailure || e == KeygenError::EncodingFailure,
        },
{
    let entropy = match draw_entropy() {
        Ok(entropy) => entropy,
        Err(e) => {
            return Err(e);
        },
    };
    let r = mnemonic_from_entropy(entropy.as_slice());
    proof {
        if r is Ok {
            assert(phrase_of(entropy@) == Ok::<Seq<Seq<char>>, KeygenError>(
                mnemonic_words(r->Ok_0),
            ));
        }
    }
    r
}

/// The seed of a mnemonic under a passphrase.
pub fn generate_seed(mnemonic: &bip39::Mnemonic, passphrase: &str) -> (seed: [u8; 64])
    ensures
        seed@ == seed_bytes(mnemonic_words(*mnemonic), passphrase@),
        seed@.len() == SEED_BYTES,
{
    stretch(mnemonic, passphrase)
}

} // verus!
