//! Complexity levels, how a selector names one, and the errors of generation.
use vstd::prelude::*;
use vstd::string::*;

verus! {

/// How much decoration a passphrase carries.
#[derive(Debug, Clone, Copy, PartialEq, Eq, Structural)]
pub enum ComplexityLevel {
    /// Three words joined by `-`.
    Basic,
    /// Three words; the first carries a number, the second a capital.
    Moderate,
    /// As `Moderate`, and the third word carries a symbol.
    Advanced,
}

/// Why no passphrase was produced.
#[derive(Debug, Clone, Copy, PartialEq, Eq, Structural)]
pub enum PassphraseError {
    /// The corpus holds fewer words than the level draws.
    InsufficientCorpus,
    /// The selector names no level.
    UnknownLevel,
}

/// The number of distinct corpus positions that one passphrase of `level` draws.
pub open spec fn spec_sample_size(level: ComplexityLevel) -> nat {
    match level {
        ComplexityLevel::Basic => 3,
        ComplexityLevel::Moderate => 3,
        ComplexityLevel::Advanced => 4,
    }
}

/// The level that a selector names: `"1"`, `"2"` or `"3"`.
pub open spec fn level_of(raw: Seq<char>) -> Option<ComplexityLevel> {
    if raw == seq!['1'] {
        Some(ComplexityLevel::Basic)
    } else if raw == seq!['2'] {
        Some(ComplexityLevel::Moderate)
    } else if raw == seq!['3'] {
        Some(ComplexityLevel::Advanced)
    } else {
        None
    }
}

/// The number of words that one passphrase of `level` draws from the corpus.
pub fn sample_size(level: ComplexityLevel) -> (r: usize)
    ensures
        r == spec_sample_size(level),
{
    match level {
        ComplexityLevel::Basic => 3,
        ComplexityLevel::Moderate => 3,
        ComplexityLevel::Advanced => 4,
    }
}

/// Maps a selector to a level; any other selector is `UnknownLevel`.
pub fn parse_level(raw: &str) -> (r: Result<ComplexityLevel, PassphraseError>)
    ensures
        match level_of(raw@) {
            Some(l) => r == Ok::<ComplexityLevel, PassphraseError>(l),
            None => r == Err::<ComplexityLevel, PassphraseError>(PassphraseError::UnknownLevel),
        },
{
    if raw.unicode_len() != 1 {
        return Err(PassphraseError::UnknownLevel);
    }
    let c = raw.get_char(0);
    assert(raw@ == seq![c]);
    if c == '1' {
        Ok(ComplexityLevel::Basic)
    } else if c == '2' {
        Ok(ComplexityLevel::Moderate)
    } else if c == '3' {
        Ok(ComplexityLevel::Advanced)
    } else {
        Err(PassphraseError::UnknownLevel)
    }
}

} // verus!
