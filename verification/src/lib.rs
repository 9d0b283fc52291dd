//! Phonological features of speech sounds and their written form in the
//! International Phonetic Alphabet.
//!
//! A speech sound is a `phonet::Phonet`: a consonant or a vowel, described by
//! one value from each of the feature domains in `features`. A feature may be
//! left unmarked, and a phonet with unmarked features describes every sound
//! that fills them in; `algebra` finds the common description of two sounds and
//! lists the sounds of a description. `grapheme` reads and writes the symbols:
//! `grapheme::international_phonetic_alphabet` analyzes a text into a phonet and
//! constructs the text of a phonet, and applies the rules of `phonet` (voicing,
//! devoicing, spirantization) to a written sound.
//!
//! Every function states what it returns as a function of its arguments, and
//! the laws that connect the functions are proved beside them.

pub mod algebra;
pub mod features;
pub mod grapheme;
pub mod phonet;
pub mod product;
