//! How the characters of the International Phonetic Alphabet sit on the line:
//! which ones are raised, which diacritics go above or below their symbol, and
//! which letters reach above or below the body of the line.

use vstd::prelude::*;

verus! {

/// The characters that are written above the base line and to the right of
/// the character before them, as exponents are.
pub const EXPONENTIALS: [char; 7] = ['ʰ', 'ʷ', 'ʲ', 'ˠ', 'ˤ', 'ⁿ', 'ˡ'];

/// The letters that take up space above the body of the line.
pub const ASCENDERS: [char; 37] = [
    'b', 't', 'd', 'k', 'ʔ', 'f', 'θ', 'ð', 'ħ', 'ʕ', 'h', 'ɦ', 'ɬ', 'l', 'ʎ', 'ʘ', 'ɓ', 'ǀ', 'ɗ', 'ǃ', 'ǂ', 'ɠ',
    'ʄ', 'ǁ', 'ʛ', 'ɺ', 'ʢ', 'ʡ', 'ɤ', 'ʈ', 'ɖ', 'ɸ', 'β', 'ʃ', 'ɮ', 'ɭ', 'ɧ',
];

/// The letters that take up space below the base line.
pub const DESCENDERS: [char; 28] = [
    'p', 'ɟ', 'g', 'q', 'ɱ', 'ɽ', 'ʒ', 'ʂ', 'ʐ', 'ç', 'ʝ', 'ɣ', 'χ', 'ɻ', 'j', 'ɰ', 'ɥ', 'y', 'ɳ', 'ɲ', 'ʈ', 'ɖ',
    'ɸ', 'β', 'ʃ', 'ɮ', 'ɭ', 'ɧ',
];

/// The combining ring above: the voiceless mark for a letter with a descender.
pub const RING_ABOVE: char = '\u{030A}';

/// The combining ring below: the voiceless mark for any other letter.
pub const RING_BELOW: char = '\u{0325}';

/// Whether an array holds a character.
fn holds<const N: usize>(characters: &[char; N], character: char) -> (r: bool)
    ensures
        r == characters@.contains(character),
{
    for i in 0..N
        invariant
            forall|k: int| 0 <= k < i ==> characters@[k] != character,
    {
        if characters[i] == character {
            return true;
        }
    }
    false
}

/// Whether a character is written above the base line and to the right of the
/// previous character, like the exponent of a power.
pub fn is_exponential(character: char) -> (r: bool)
    ensures
        r == EXPONENTIALS@.contains(character),
{
    for i in 0..7usize
        invariant
            forall|k: int| 0 <= k < i ==> EXPONENTIALS@[k] != character,
    {
        if EXPONENTIALS[i] == character {
            return true;
        }
    }
    false
}

/// Whether a diacritic goes above the character it is placed on.
pub fn is_diacritic_above(character: char) -> (r: bool)
    ensures
        r == (character == RING_ABOVE),
{
    character == RING_ABOVE
}

/// Whether a diacritic goes below the character it is placed on.
pub fn is_diacritic_below(character: char) -> (r: bool)
    ensures
        r == (character == RING_BELOW),
{
    character == RING_BELOW
}

/// Whether a letter takes up space above the body of the line. This tells
/// where a diacritic can go and stay readable.
pub fn is_ascender(character: char) -> (r: bool)
    ensures
        r == ASCENDERS@.contains(character),
{
    holds(&ASCENDERS, character)
}

/// Whether a letter takes up space below the base line. This tells where a
/// diacritic can go and stay readable.
pub fn is_descender(character: char) -> (r: bool)
    ensures
        r == DESCENDERS@.contains(character),
{
    holds(&DESCENDERS, character)
}

} // verus!
