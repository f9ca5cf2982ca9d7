//! Generation of memorable passphrases from a word list, at three levels of
//! complexity: plain words, words with a number and a capital, and words with
//! a number, a capital and a symbol.
pub mod engine;
pub mod entropy;
pub mod level;
pub mod text;

pub use engine::{
    advanced, basic, compose, generate, generate_batch, moderate, sample, BATCH_SIZE, NUMBER_MAX,
    NUMBER_MIN,
};
pub use level::{parse_level, sample_size, ComplexityLevel, PassphraseError};
pub use text::{capitalize, decimal, symbol, SYMBOL_COUNT};
