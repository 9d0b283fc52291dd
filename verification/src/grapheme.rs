//! Written forms of speech sounds.

pub mod grapheme_grammar;
pub mod international_phonetic_alphabet;
