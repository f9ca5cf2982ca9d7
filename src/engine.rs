//! Assembly of passphrases from drawn corpus positions, a number and a symbol,
//! and their generation one at a time or in batches.
use vstd::prelude::*;
use vstd::string::*;

use crate::entropy::{all_distinct, random_between, sample_positions};
use crate::level::{sample_size, spec_sample_size, ComplexityLevel, PassphraseError};
use crate::text::{
    capitalize, capitalized, decimal, decimal_text, symbol, symbol_char, SYMBOL_COUNT,
};

verus! {

/// The number of passphrases in the batches of `basic`, `moderate` and `advanced`.
pub const BATCH_SIZE: usize = 3;

/// The smallest number a passphrase carries.
pub const NUMBER_MIN: usize = 1;

/// The largest number a passphrase carries.
pub const NUMBER_MAX: usize = 100;

/// The text of each corpus entry.
pub open spec fn word_texts(corpus: Seq<String>) -> Seq<Seq<char>> {
    corpus.map_values(|w: String| w@)
}

/// The random choices behind one passphrase are admissible: as many distinct
/// corpus positions as the level draws, a number in `1..=100` and a symbol index.
pub open spec fn valid_draw(
    corpus_len: nat,
    level: ComplexityLevel,
    picks: Seq<usize>,
    number: nat,
    sym: nat,
) -> bool {
    &&& picks.len() == spec_sample_size(level)
    &&& forall|i: int| 0 <= i < picks.len() ==> picks[i] < corpus_len
    &&& all_distinct(picks)
    &&& NUMBER_MIN <= number <= NUMBER_MAX
    &&& sym < SYMBOL_COUNT
}

/// The passphrase that a draw gives: `w1-w2-w3` for `Basic`,
/// `w1<number>-W2-w3` for `Moderate` and `w1<number>-W2-w3<symbol>` for
/// `Advanced`, where `wi` is the word at the i-th drawn position and `W2` is
/// `w2` capitalised. A fourth drawn position, if any, is not used.
pub open spec fn passphrase_text(
    words: Seq<Seq<char>>,
    level: ComplexityLevel,
    picks: Seq<usize>,
    number: nat,
    sym: nat,
) -> Seq<char> {
    let w0 = words[picks[0] as int];
    let w1 = words[picks[1] as int];
    let w2 = words[picks[2] as int];
    match level {
        ComplexityLevel::Basic => w0 + seq!['-'] + w1 + seq!['-'] + w2,
        ComplexityLevel::Moderate => w0 + decimal_text(number) + seq!['-'] + capitalized(w1)
            + seq!['-'] + w2,
        ComplexityLevel::Advanced => w0 + decimal_text(number) + seq!['-'] + capitalized(w1)
            + seq!['-'] + w2 + seq![symbol_char(sym)],
    }
}

/// `p` is a passphrase of `level` over `words` for some admissible draw.
pub open spec fn is_passphrase(words: Seq<Seq<char>>, level: ComplexityLevel, p: Seq<char>) -> bool {
    exists|picks: Seq<usize>, number: nat, sym: nat|
        valid_draw(words.len(), level, picks, number, sym) && #[trigger] passphrase_text(
            words,
            level,
            picks,
            number,
            sym,
        ) == p
}

/// Distinct drawn positions over a corpus without repeated entries give
/// pairwise distinct words: no word appears twice in one passphrase.
pub proof fn lemma_drawn_words_distinct(
    words: Seq<Seq<char>>,
    level: ComplexityLevel,
    picks: Seq<usize>,
    number: nat,
    sym: nat,
)
    requires
        forall|i: int, j: int| 0 <= i < words.len() && 0 <= j < words.len() && i != j ==> words[i] != words[j],
        valid_draw(words.len(), level, picks, number, sym),
    ensures
        forall|i: int, j: int|
            0 <= i < picks.len() && 0 <= j < picks.len() && i != j ==> words[#[trigger] picks[i] as int]
                != words[#[trigger] picks[j] as int],
{
}

/// Builds the passphrase of `level` from drawn corpus positions `picks`, the
/// number `number` and the symbol with index `sym`.
pub fn compose(
    corpus: &Vec<String>,
    level: ComplexityLevel,
    picks: &Vec<usize>,
    number: u32,
    sym: usize,
) -> (r: String)
    requires
        picks@.len() == spec_sample_size(level),
        forall|i: int| 0 <= i < picks@.len() ==> picks@[i] < corpus@.len(),
        sym < SYMBOL_COUNT,
    ensures
        r@ == passphrase_text(word_texts(corpus@), level, picks@, number as nat, sym as nat),
{
    proof {
        reveal_strlit("-");
    }
    let w0 = corpus[picks[0]].as_str();
    let w1 = corpus[picks[1]].as_str();
    let w2 = corpus[picks[2]].as_str();
    let mut r = String::from_str(w0);
    match level {
        ComplexityLevel::Basic => {
            r.append("-");
            r.append(w1);
        },
        _ => {
            let num = decimal(number);
            r.append(num.as_str());
            r.append("-");
            let cap = capitalize(w1);
            r.append(cap.as_str());
        },
    }
    r.append("-");
    r.append(w2);
    if level == ComplexityLevel::Advanced {
        r.append(symbol(sym));
    }
    r
}

/// Draws `n` distinct corpus positions in random order. Fails with
/// `InsufficientCorpus` exactly when the corpus holds fewer than `n` entries.
pub fn sample(corpus: &Vec<String>, n: usize) -> (r: Result<Vec<usize>, PassphraseError>)
    ensures
        r is Err <==> corpus@.len() < n,
        match r {
            Ok(picks) => {
                &&& picks@.len() == n
                &&& forall|i: int| 0 <= i < picks@.len() ==> picks@[i] < corpus@.len()
                &&& all_distinct(picks@)
            },
            Err(e) => e == PassphraseError::InsufficientCorpus,
        },
{
    if corpus.len() < n {
        Err(PassphraseError::InsufficientCorpus)
    } else {
        Ok(sample_positions(corpus.len(), n))
    }
}

/// Generates one passphrase of `level` from `corpus`, with fresh random
/// positions, number and symbol. Fails with `InsufficientCorpus` exactly when
/// the corpus holds fewer entries than the level draws.
pub fn generate(corpus: &Vec<String>, level: ComplexityLevel) -> (r: Result<
    String,
    PassphraseError,
>)
    ensures
        r is Err <==> corpus@.len() < spec_sample_size(level),
        match r {
            Ok(p) => is_passphrase(word_texts(corpus@), level, p@),
            Err(e) => e == PassphraseError::InsufficientCorpus,
        },
{
    let picks = match sample(corpus, sample_size(level)) {
        Ok(picks) => picks,
        Err(e) => return Err(e),
    };
    let number = random_between(NUMBER_MIN, NUMBER_MAX) as u32;
    let sym = random_between(0, SYMBOL_COUNT - 1);
    let p = compose(corpus, level, &picks, number, sym);
    assert(valid_draw(corpus@.len(), level, picks@, number as nat, sym as nat));
    Ok(p)
}

/// Generates `count` passphrases of `level`, each from its own draw. Fails
/// as a whole with `InsufficientCorpus` exactly when the corpus holds fewer
/// entries than the level draws; no partial batch is returned.
pub fn generate_batch(corpus: &Vec<String>, level: ComplexityLevel, count: usize) -> (r: Result<
    Vec<String>,
    PassphraseError,
>)
    ensures
        r is Err <==> corpus@.len() < spec_sample_size(level),
        match r {
            Ok(v) => v@.len() == count && forall|i: int|
                0 <= i < v@.len() ==> is_passphrase(word_texts(corpus@), level, #[trigger] v@[i]@),
            Err(e) => e == PassphraseError::InsufficientCorpus,
        },
{
    if corpus.len() < sample_size(level) {
        return Err(PassphraseError::InsufficientCorpus);
    }
    let mut out: Vec<String> = Vec::new();
    let mut k: usize = 0;
    while k < count
        invariant
            k <= count,
            out@.len() == k,
            corpus@.len() >= spec_sample_size(level),
            forall|i: int|
                0 <= i < out@.len() ==> is_passphrase(word_texts(corpus@), level, #[trigger] out@[i]@),
        decreases count - k,
    {
        match generate(corpus, level) {
            Ok(p) => out.push(p),
            Err(e) => return Err(e),
        }
        k = k + 1;
    }
    Ok(out)
}

/// A batch of `BATCH_SIZE` passphrases of level `Basic`.
pub fn basic(words: &Vec<String>) -> (r: Result<Vec<String>, PassphraseError>)
    ensures
        r is Err <==> words@.len() < 3,
        match r {
            Ok(v) => v@.len() == BATCH_SIZE && forall|i: int|
                0 <= i < v@.len() ==> is_passphrase(
                    word_texts(words@),
                    ComplexityLevel::Basic,
                    #[trigger] v@[i]@,
                ),
            Err(e) => e == PassphraseError::InsufficientCorpus,
        },
{
    generate_batch(words, ComplexityLevel::Basic, BATCH_SIZE)
}

/// A batch of `BATCH_SIZE` passphrases of level `Moderate`.
pub fn moderate(words: &Vec<String>) -> (r: Result<Vec<String>, PassphraseError>)
    ensures
        r is Err <==> words@.len() < 3,
        match r {
            Ok(v) => v@.len() == BATCH_SIZE && forall|i: int|
                0 <= i < v@.len() ==> is_passphrase(
                    word_texts(words@),
                    ComplexityLevel::Moderate,
                    #[trigger] v@[i]@,
                ),
            Err(e) => e == PassphraseError::InsufficientCorpus,
        },
{
    generate_batch(words, ComplexityLevel::Moderate, BATCH_SIZE)
}

/// A batch of `BATCH_SIZE` passphrases of level `Advanced`.
pub fn advanced(words: &Vec<String>) -> (r: Result<Vec<String>, PassphraseError>)
    ensures
        r is Err <==> words@.len() < 4,
        match r {
            Ok(v) => v@.len() == BATCH_SIZE && forall|i: int|
                0 <= i < v@.len() ==> is_passphrase(
                    word_texts(words@),
                    ComplexityLevel::Advanced,
                    #[trigger] v@[i]@,
                ),
            Err(e) => e == PassphraseError::InsufficientCorpus,
        },
{
    generate_batch(words, ComplexityLevel::Advanced, BATCH_SIZE)
}

} // verus!
