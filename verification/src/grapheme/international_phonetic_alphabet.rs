//! The transcoder between phonets and their symbols in the International
//! Phonetic Alphabet.
//!
//! A text is analyzed into the phonet it writes, and a phonet is constructed
//! into the text that writes it. Both directions read the same charts: the
//! grid of pulmonic consonants, whose rows are manners and whose columns are
//! places with a voiceless and a voiced cell each, and the list of symbols that
//! stand outside that grid (affricates, other symbols, clicks, implosives and
//! vowels). What no chart holds is written with a diacritic on the nearest
//! symbol, one step away at most.

use crate::features::Airstream::{Click, Implosive, PulmonicEgressive};
use crate::features::Backness::{Back, Central, Front};
use crate::features::Height::{Close, CloseMid, Mid, NearClose, NearOpen, Open, OpenMid};
use crate::features::Manner::{
    Affricate,
    Approximant,
    Fricative,
    Lateral,
    LateralApproximant,
    LateralFlap,
    LateralFricative,
    Nasal,
    Plosive,
    TapOrFlap,
    Trill,
    UnmarkedManner,
};
use crate::features::Place::{
    Alveolar,
    AlveoloPalatal,
    Bilabial,
    Dental,
    Epiglottal,
    LabialPalatal,
    LabialVelar,
    PalatoAlveolar,
    Palatal,
    PostAlveolar,
    UnmarkedPlace,
    Uvular,
    Velar,
};
use crate::features::Rounding::{Rounded, UnmarkedRounding, Unrounded};
use crate::features::VocalFolds::{
    CreakyVoiced,
    UnmarkedVocalFolds,
    Voiced,
    VoicedAspirated,
    Voiceless,
    VoicelessAspirated,
};
use crate::features::{Manner, Place, VocalFolds, PLACE_STATES};
use crate::phonet::Phonet;
use crate::phonet::Phonet::{Consonant, Vowel};
use crate::phonet::{
    devoiced_phonet,
    spec_devoiced_phonet,
    spec_spirantized_phonet,
    spec_voiced_phonet,
    spirantized_phonet,
    voiced_phonet,
};
use vstd::prelude::*;

verus! {

/// Text that is meant to be read as a transcription in the International
/// Phonetic Alphabet.
pub struct IPAText(pub String);

impl View for IPAText {
    type V = Seq<char>;

    /// The characters of the text.
    open spec fn view(&self) -> Seq<char> {
        self.0@
    }
}

/// The grid of pulmonic consonants. A row is a manner of articulation, in the
/// order of `PULMONIC_ROWS`. Two neighbouring columns are a place of
/// articulation, in the fixed order of places from the bilabial to the glottal
/// one: the voiceless sound in the even column and the voiced one in the odd
/// column. A space marks a combination that has no symbol of its own.
pub const CONSONANTS_PULMONIC_TABLE: [[char; 22]; 8] = [
    ['p', 'b', ' ', ' ', ' ', ' ', 't', 'd', ' ', ' ', 'ʈ', 'ɖ', 'c', 'ɟ', 'k', 'g', 'q', 'ɢ', ' ', ' ', 'ʔ', ' '],
    [' ', 'm', ' ', 'ɱ', ' ', ' ', ' ', 'n', ' ', ' ', ' ', 'ɳ', ' ', 'ɲ', ' ', 'ŋ', ' ', 'ɴ', ' ', ' ', ' ', ' '],
    [' ', 'ʙ', ' ', ' ', ' ', ' ', ' ', 'r', ' ', ' ', ' ', ' ', ' ', ' ', ' ', ' ', ' ', 'ʀ', ' ', ' ', ' ', ' '],
    [' ', ' ', ' ', 'ⱱ', ' ', ' ', ' ', 'ɾ', ' ', ' ', ' ', 'ɽ', ' ', ' ', ' ', ' ', ' ', ' ', ' ', ' ', ' ', ' '],
    ['ɸ', 'β', 'f', 'v', 'θ', 'ð', 's', 'z', 'ʃ', 'ʒ', 'ʂ', 'ʐ', 'ç', 'ʝ', 'x', 'ɣ', 'χ', 'ʁ', 'ħ', 'ʕ', 'h', 'ɦ'],
    [' ', ' ', ' ', ' ', ' ', ' ', 'ɬ', 'ɮ', ' ', ' ', ' ', ' ', ' ', ' ', ' ', ' ', ' ', ' ', ' ', ' ', ' ', ' '],
    [' ', ' ', ' ', 'ʋ', ' ', ' ', ' ', 'ɹ', ' ', ' ', ' ', 'ɻ', ' ', 'j', ' ', 'ɰ', ' ', ' ', ' ', ' ', ' ', ' '],
    [' ', ' ', ' ', ' ', ' ', ' ', ' ', 'l', ' ', ' ', ' ', 'ɭ', ' ', 'ʎ', ' ', 'ʟ', ' ', ' ', ' ', ' ', ' ', ' '],
];

/// The manner of each row of the grid.
pub const PULMONIC_ROWS: [Manner; 8] = [
    Plosive,
    Nasal,
    Trill,
    TapOrFlap,
    Fricative,
    LateralFricative,
    Approximant,
    LateralApproximant,
];

/// The number of places that have columns in the grid: the places of the
/// fixed order up to the glottal one.
pub const PULMONIC_PLACES: usize = 11;

/// The vowel symbols.
pub const VOWELS: [char; 28] = [
    'i', 'y', 'ɨ', 'ʉ', 'ɯ', 'u', 'ɪ', 'ʏ', 'ʊ', 'e', 'ø', 'ɘ', 'ɵ', 'ɤ', 'o', 'ə', 'ɛ', 'œ', 'ɜ', 'ɞ', 'ʌ', 'ɔ',
    'æ', 'ɐ', 'a', 'ɶ', 'ɑ', 'ɒ',
];

/// The consonant symbols that the chart lists beside the grid. The symbol
/// `SIMULTANEOUS_SH_AND_X` is among them, though no phonet describes a sound
/// with two places of articulation.
pub const OTHER_SYMBOLS: [char; 10] = ['ʍ', 'ɕ', 'w', 'ʑ', 'ɥ', 'ɺ', 'ʜ', 'ɧ', 'ʢ', 'ʡ'];

/// The symbols of the clicks and of the voiced implosives.
pub const CONSONANTS_NON_PULMONIC: [char; 10] = ['ʘ', 'ɓ', 'ǀ', 'ɗ', 'ǃ', 'ʄ', 'ǂ', 'ɠ', 'ǁ', 'ʛ'];

/// The symbol of the simultaneous postalveolar and velar fricative.
pub const SIMULTANEOUS_SH_AND_X: char = 'ɧ';

/// What stands in a cell of the grid that has no symbol.
pub const BLANK: char = ' ';

/// The combining ring below, which makes the symbol under it voiceless.
pub const VOICELESS_MARK: char = '\u{0325}';

/// The combining caron below, which makes the symbol under it voiced.
pub const VOICED_MARK: char = '\u{032C}';

/// The modifier letter small h, which adds aspiration.
pub const ASPIRATION_MARK: char = 'ʰ';

/// The combining minus sign below, which moves the place of articulation back.
pub const RETRACTION_MARK: char = '\u{0320}';

/// The combining double inverted breve, the tie bar above an affricate.
pub const TIE_ABOVE: char = '\u{0361}';

/// The combining double breve below, the tie bar below an affricate.
pub const TIE_BELOW: char = '\u{035C}';

/// The empty set sign, written for a phonet that no chart and no diacritic can
/// express.
pub const NO_SYMBOL: char = '∅';

/// What the analysis gives for a text that it does not recognize: a consonant
/// of which only the airstream is known.
pub open spec fn unrecognized() -> Phonet {
    Consonant {
        vocal_folds: UnmarkedVocalFolds,
        place: UnmarkedPlace,
        manner: UnmarkedManner,
        airstream: PulmonicEgressive,
    }
}

/// The row and the column of a symbol in the grid of pulmonic consonants.
pub open spec fn spec_pulmonic_position(x: char) -> Option<(usize, usize)> {
    match x {
        // Plosives.
        'p' => Some((0, 0)),
        'b' => Some((0, 1)),
        't' => Some((0, 6)),
        'd' => Some((0, 7)),
        'ʈ' => Some((0, 10)),
        'ɖ' => Some((0, 11)),
        'c' => Some((0, 12)),
        'ɟ' => Some((0, 13)),
        'k' => Some((0, 14)),
        'g' => Some((0, 15)),
        'q' => Some((0, 16)),
        'ɢ' => Some((0, 17)),
        'ʔ' => Some((0, 20)),
        // Nasals.
        'm' => Some((1, 1)),
        'ɱ' => Some((1, 3)),
        'n' => Some((1, 7)),
        'ɳ' => Some((1, 11)),
        'ɲ' => Some((1, 13)),
        'ŋ' => Some((1, 15)),
        'ɴ' => Some((1, 17)),
        // Trills.
        'ʙ' => Some((2, 1)),
        'r' => Some((2, 7)),
        'ʀ' => Some((2, 17)),
        // Taps and flaps.
        'ⱱ' => Some((3, 3)),
        'ɾ' => Some((3, 7)),
        'ɽ' => Some((3, 11)),
        // Fricatives.
        'ɸ' => Some((4, 0)),
        'β' => Some((4, 1)),
        'f' => Some((4, 2)),
        'v' => Some((4, 3)),
        'θ' => Some((4, 4)),
        'ð' => Some((4, 5)),
        's' => Some((4, 6)),
        'z' => Some((4, 7)),
        'ʃ' => Some((4, 8)),
        'ʒ' => Some((4, 9)),
        'ʂ' => Some((4, 10)),
        'ʐ' => Some((4, 11)),
        'ç' => Some((4, 12)),
        'ʝ' => Some((4, 13)),
        'x' => Some((4, 14)),
        'ɣ' => Some((4, 15)),
        'χ' => Some((4, 16)),
        'ʁ' => Some((4, 17)),
        'ħ' => Some((4, 18)),
        'ʕ' => Some((4, 19)),
        'h' => Some((4, 20)),
        'ɦ' => Some((4, 21)),
        // Lateral fricatives.
        'ɬ' => Some((5, 6)),
        'ɮ' => Some((5, 7)),
        // Approximants.
        'ʋ' => Some((6, 3)),
        'ɹ' => Some((6, 7)),
        'ɻ' => Some((6, 11)),
        'j' => Some((6, 13)),
        'ɰ' => Some((6, 15)),
        // Lateral approximants.
        'l' => Some((7, 7)),
        'ɭ' => Some((7, 11)),
        'ʎ' => Some((7, 13)),
        'ʟ' => Some((7, 15)),
        _ => None,
    }
}

/// The voicing that a column of the grid stands for.
pub open spec fn spec_col_index_to_voicing(col_index: usize) -> VocalFolds {
    if col_index % 2 == 0 {
        Voiceless
    } else {
        Voiced
    }
}

/// The place that a column of the grid stands for.
pub open spec fn spec_analyze_place_transcription(col_index: usize) -> Place {
    PLACE_STATES@[col_index as int / 2]
}

/// The phonet of a symbol of the grid, read from its row and its column; the
/// unrecognized phonet for any other character.
pub open spec fn spec_analyze_transcriptionv2(x: char) -> Phonet {
    match spec_pulmonic_position(x) {
        Some((row_index, col_index)) => Consonant {
            vocal_folds: spec_col_index_to_voicing(col_index),
            place: spec_analyze_place_transcription(col_index),
            manner: PULMONIC_ROWS@[row_index as int],
            airstream: PulmonicEgressive,
        },
        None => unrecognized(),
    }
}

/// The phonet of a symbol that stands outside the grid and is one character
/// long.
pub open spec fn spec_analyze_listed_symbol(x: char) -> Option<Phonet> {
    match x {
        // Other symbols.
        'w' => Some(Consonant { vocal_folds: Voiced, place: LabialVelar, manner: Approximant, airstream: PulmonicEgressive }),
        'ʍ' => Some(Consonant { vocal_folds: Voiceless, place: LabialVelar, manner: Fricative, airstream: PulmonicEgressive }),
        'ɥ' => Some(Consonant { vocal_folds: Voiced, place: LabialPalatal, manner: Approximant, airstream: PulmonicEgressive }),
        'ʜ' => Some(Consonant { vocal_folds: Voiceless, place: Epiglottal, manner: Fricative, airstream: PulmonicEgressive }),
        'ʢ' => Some(Consonant { vocal_folds: Voiced, place: Epiglottal, manner: Fricative, airstream: PulmonicEgressive }),
        'ʡ' => Some(Consonant { vocal_folds: Voiceless, place: Epiglottal, manner: Plosive, airstream: PulmonicEgressive }),
        'ɕ' => Some(Consonant { vocal_folds: Voiceless, place: AlveoloPalatal, manner: Fricative, airstream: PulmonicEgressive }),
        'ʑ' => Some(Consonant { vocal_folds: Voiced, place: AlveoloPalatal, manner: Fricative, airstream: PulmonicEgressive }),
        'ɺ' => Some(Consonant { vocal_folds: Voiced, place: Alveolar, manner: LateralFlap, airstream: PulmonicEgressive }),
        // Clicks and voiced implosives.
        'ʘ' => Some(Consonant { vocal_folds: UnmarkedVocalFolds, place: Bilabial, manner: UnmarkedManner, airstream: Click }),
        'ǀ' => Some(Consonant { vocal_folds: UnmarkedVocalFolds, place: Dental, manner: UnmarkedManner, airstream: Click }),
        'ǃ' => Some(Consonant { vocal_folds: UnmarkedVocalFolds, place: Alveolar, manner: UnmarkedManner, airstream: Click }),
        'ǂ' => Some(Consonant { vocal_folds: UnmarkedVocalFolds, place: PalatoAlveolar, manner: UnmarkedManner, airstream: Click }),
        'ǁ' => Some(Consonant { vocal_folds: UnmarkedVocalFolds, place: Alveolar, manner: Lateral, airstream: Click }),
        'ɓ' => Some(Consonant { vocal_folds: Voiced, place: Bilabial, manner: UnmarkedManner, airstream: Implosive }),
        'ɗ' => Some(Consonant { vocal_folds: Voiced, place: Dental, manner: UnmarkedManner, airstream: Implosive }),
        'ʄ' => Some(Consonant { vocal_folds: Voiced, place: Palatal, manner: UnmarkedManner, airstream: Implosive }),
        'ɠ' => Some(Consonant { vocal_folds: Voiced, place: Velar, manner: UnmarkedManner, airstream: Implosive }),
        'ʛ' => Some(Consonant { vocal_folds: Voiced, place: Uvular, manner: UnmarkedManner, airstream: Implosive }),
        // Vowels.
        'i' => Some(Vowel { height: Close, backness: Front, rounding: Unrounded, vocal_folds: Voiced }),
        'y' => Some(Vowel { height: Close, backness: Front, rounding: Rounded, vocal_folds: Voiced }),
        'ɨ' => Some(Vowel { height: Close, backness: Central, rounding: Unrounded, vocal_folds: Voiced }),
        'ʉ' => Some(Vowel { height: Close, backness: Central, rounding: Rounded, vocal_folds: Voiced }),
        'ɯ' => Some(Vowel { height: Close, backness: Back, rounding: Unrounded, vocal_folds: Voiced }),
        'u' => Some(Vowel { height: Close, backness: Back, rounding: Rounded, vocal_folds: Voiced }),
        'ɪ' => Some(Vowel { height: NearClose, backness: Front, rounding: Unrounded, vocal_folds: Voiced }),
        'ʏ' => Some(Vowel { height: NearClose, backness: Front, rounding: Rounded, vocal_folds: Voiced }),
        'ʊ' => Some(Vowel { height: NearClose, backness: Back, rounding: Rounded, vocal_folds: Voiced }),
        'e' => Some(Vowel { height: CloseMid, backness: Front, rounding: Unrounded, vocal_folds: Voiced }),
        'ø' => Some(Vowel { height: CloseMid, backness: Front, rounding: Rounded, vocal_folds: Voiced }),
        'ɘ' => Some(Vowel { height: CloseMid, backness: Central, rounding: Unrounded, vocal_folds: Voiced }),
        'ɵ' => Some(Vowel { height: CloseMid, backness: Central, rounding: Rounded, vocal_folds: Voiced }),
        'ɤ' => Some(Vowel { height: CloseMid, backness: Back, rounding: Unrounded, vocal_folds: Voiced }),
        'o' => Some(Vowel { height: CloseMid, backness: Back, rounding: Rounded, vocal_folds: Voiced }),
        'ə' => Some(Vowel { height: Mid, backness: Central, rounding: UnmarkedRounding, vocal_folds: Voiced }),
        'ɛ' => Some(Vowel { height: OpenMid, backness: Front, rounding: Unrounded, vocal_folds: Voiced }),
        'œ' => Some(Vowel { height: OpenMid, backness: Front, rounding: Rounded, vocal_folds: Voiced }),
        'ɜ' => Some(Vowel { height: OpenMid, backness: Central, rounding: Unrounded, vocal_folds: Voiced }),
        'ɞ' => Some(Vowel { height: OpenMid, backness: Central, rounding: Rounded, vocal_folds: Voiced }),
        'ʌ' => Some(Vowel { height: OpenMid, backness: Back, rounding: Unrounded, vocal_folds: Voiced }),
        'ɔ' => Some(Vowel { height: OpenMid, backness: Back, rounding: Rounded, vocal_folds: Voiced }),
        'æ' => Some(Vowel { height: NearOpen, backness: Front, rounding: Unrounded, vocal_folds: Voiced }),
        'ɐ' => Some(Vowel { height: NearOpen, backness: Central, rounding: UnmarkedRounding, vocal_folds: Voiced }),
        'a' => Some(Vowel { height: Open, backness: Front, rounding: Unrounded, vocal_folds: Voiced }),
        'ɶ' => Some(Vowel { height: Open, backness: Front, rounding: Rounded, vocal_folds: Voiced }),
        'ɑ' => Some(Vowel { height: Open, backness: Back, rounding: Unrounded, vocal_folds: Voiced }),
        'ɒ' => Some(Vowel { height: Open, backness: Back, rounding: Rounded, vocal_folds: Voiced }),
        _ => None,
    }
}

/// The phonet of an affricate, which is written as a stop, a tie bar and a
/// fricative.
pub open spec fn spec_analyze_affricate(stop: char, tie: char, fricative: char) -> Option<Phonet> {
    match (stop, tie, fricative) {
        ('t', TIE_ABOVE, 'ʃ') => Some(Consonant { vocal_folds: Voiceless, place: PostAlveolar, manner: Affricate, airstream: PulmonicEgressive }),
        ('d', TIE_ABOVE, 'ʒ') => Some(Consonant { vocal_folds: Voiced, place: PostAlveolar, manner: Affricate, airstream: PulmonicEgressive }),
        ('p', TIE_ABOVE, 'ɸ') => Some(Consonant { vocal_folds: Voiceless, place: Bilabial, manner: Affricate, airstream: PulmonicEgressive }),
        ('t', TIE_BELOW, 's') => Some(Consonant { vocal_folds: Voiceless, place: Alveolar, manner: Affricate, airstream: PulmonicEgressive }),
        ('d', TIE_ABOVE, 'z') => Some(Consonant { vocal_folds: Voiced, place: Alveolar, manner: Affricate, airstream: PulmonicEgressive }),
        ('k', TIE_ABOVE, 'x') => Some(Consonant { vocal_folds: Voiceless, place: Velar, manner: Affricate, airstream: PulmonicEgressive }),
        ('q', TIE_ABOVE, 'χ') => Some(Consonant { vocal_folds: Voiceless, place: Uvular, manner: Affricate, airstream: PulmonicEgressive }),
        _ => None,
    }
}

/// The phonet of a text of one character: that of a listed symbol, else that
/// of a symbol of the grid, else the unrecognized phonet.
pub open spec fn spec_analyze_symbol(x: char) -> Phonet {
    match spec_analyze_listed_symbol(x) {
        Some(phonet) => phonet,
        None => spec_analyze_transcriptionv2(x),
    }
}

/// What a diacritic makes of the phonet of the symbol that carries it. The
/// voiceless mark and the voiced mark set the voicing. The aspiration mark
/// turns a plainly voiced or voiceless consonant into its aspirated
/// counterpart and leaves a vowel as it is. Everything else is unrecognized.
pub open spec fn spec_apply_diacritic(base: Phonet, diacritic: char) -> Phonet {
    if diacritic == VOICELESS_MARK {
        base.with_voicing(Voiceless)
    } else if diacritic == VOICED_MARK {
        base.with_voicing(Voiced)
    } else if diacritic == ASPIRATION_MARK {
        match base {
            Consonant { vocal_folds: Voiced, .. } => base.with_voicing(VoicedAspirated),
            Consonant { vocal_folds: Voiceless, .. } => base.with_voicing(VoicelessAspirated),
            Vowel { .. } => base,
            _ => unrecognized(),
        }
    } else {
        unrecognized()
    }
}

/// The phonet that a text writes. A text of one character is a symbol of the
/// charts. A text of two characters is a symbol and a diacritic on it. A text
/// of three characters is an affricate. Every other text, and every text whose
/// parts the charts do not hold, is unrecognized.
pub open spec fn spec_analyze_transcription(text: Seq<char>) -> Phonet {
    if text.len() == 1 {
        spec_analyze_symbol(text[0])
    } else if text.len() == 2 {
        spec_apply_diacritic(spec_analyze_symbol(text[0]), text[1])
    } else if text.len() == 3 {
        match spec_analyze_affricate(text[0], text[1], text[2]) {
            Some(phonet) => phonet,
            None => unrecognized(),
        }
    } else {
        unrecognized()
    }
}

/// The column of a symbol in one row of the grid, if that row holds it.
pub open spec fn spec_position_in_row(row_index: usize, x: char) -> Option<usize> {
    match spec_pulmonic_position(x) {
        Some((row, col_index)) => if row == row_index {
            Some(col_index)
        } else {
            None
        },
        None => None,
    }
}

/// The manner and the row of a symbol of the grid.
pub open spec fn spec_analyze_manner_transcription(x: char) -> Option<(Manner, usize)> {
    match spec_pulmonic_position(x) {
        Some((row_index, _)) => Some((PULMONIC_ROWS@[row_index as int], row_index)),
        None => None,
    }
}

/// A symbol has a position in the grid exactly if the cell at that position
/// holds it: every symbol stands in the grid once, and a blank is no symbol.
pub proof fn lemma_pulmonic_position(x: char, row_index: usize, col_index: usize)
    ensures
        spec_pulmonic_position(x) == Some((row_index, col_index)) <==> {
            &&& row_index < 8
            &&& col_index < 22
            &&& x != BLANK
            &&& CONSONANTS_PULMONIC_TABLE@[row_index as int]@[col_index as int] == x
        },
{
}

/// Looks for a symbol in one row of the grid.
fn position_in_row(row_index: usize, x: char) -> (r: Option<usize>)
    requires
        row_index < 8,
    ensures
        r == spec_position_in_row(row_index, x),
{
    if x == BLANK {
        return None;
    }
    for col_index in 0..22usize
        invariant
            row_index < 8,
            x != BLANK,
            forall|k: int| 0 <= k < col_index ==> CONSONANTS_PULMONIC_TABLE@[row_index as int]@[k] != x,
    {
        if CONSONANTS_PULMONIC_TABLE[row_index][col_index] == x {
            proof {
                lemma_pulmonic_position(x, row_index, col_index);
            }
            return Some(col_index);
        }
    }
    proof {
        if let Some((row, col_index)) = spec_pulmonic_position(x) {
            lemma_pulmonic_position(x, row, col_index);
        }
    }
    None
}

/// Finds the row of the grid that holds a symbol, and the manner of that row.
pub fn analyze_manner_transcription(x: char) -> (r: Option<(Manner, usize)>)
    ensures
        r == spec_analyze_manner_transcription(x),
{
    for row_index in 0..8usize
        invariant
            forall|k: usize| k < row_index ==> spec_position_in_row(k, x) is None,
    {
        if position_in_row(row_index, x).is_some() {
            return Some((PULMONIC_ROWS[row_index], row_index));
        }
    }
    proof {
        if let Some((row, col_index)) = spec_pulmonic_position(x) {
            lemma_pulmonic_position(x, row, col_index);
            assert(spec_position_in_row(row, x) is Some);
        }
    }
    None
}

/// Reads the place from a column of the grid.
pub fn analyze_place_transcription(col_index: usize) -> (r: Place)
    requires
        col_index < 22,
    ensures
        r == spec_analyze_place_transcription(col_index),
{
    PLACE_STATES[col_index / 2]
}

/// Reads the voicing from a column of the grid.
pub fn col_index_to_voicing(col_index: usize) -> (r: VocalFolds)
    ensures
        r == spec_col_index_to_voicing(col_index),
{
    if col_index % 2 == 0 {
        Voiceless
    } else {
        Voiced
    }
}

/// Analyzes a symbol of the grid of pulmonic consonants.
pub fn analyze_transcriptionv2(x: char) -> (r: Phonet)
    ensures
        r == spec_analyze_transcriptionv2(x),
{
    match analyze_manner_transcription(x) {
        Some((manner1, row_index)) => {
            proof {
                let (row, col) = spec_pulmonic_position(x).unwrap();
                lemma_pulmonic_position(x, row, col);
            }
            match position_in_row(row_index, x) {
                Some(col_index) => {
                    let voicing = col_index_to_voicing(col_index);
                    let place1 = analyze_place_transcription(col_index);
                    Consonant { vocal_folds: voicing, place: place1, manner: manner1, airstream: PulmonicEgressive }
                },
                None => unrecognized_phonet(),
            }
        },
        None => unrecognized_phonet(),
    }
}

/// The phonet that stands for a text that was not recognized.
pub fn unrecognized_phonet() -> (r: Phonet)
    ensures
        r == unrecognized(),
{
    Consonant {
        vocal_folds: UnmarkedVocalFolds,
        place: UnmarkedPlace,
        manner: UnmarkedManner,
        airstream: PulmonicEgressive,
    }
}

/// Analyzes a symbol that stands outside the grid and is one character long.
fn analyze_listed_symbol(x: char) -> (r: Option<Phonet>)
    ensures
        r == spec_analyze_listed_symbol(x),
{
    match x {
        // Other symbols.
        'w' => Some(Consonant { vocal_folds: Voiced, place: LabialVelar, manner: Approximant, airstream: PulmonicEgressive }),
        'ʍ' => Some(Consonant { vocal_folds: Voiceless, place: LabialVelar, manner: Fricative, airstream: PulmonicEgressive }),
        'ɥ' => Some(Consonant { vocal_folds: Voiced, place: LabialPalatal, manner: Approximant, airstream: PulmonicEgressive }),
        'ʜ' => Some(Consonant { vocal_folds: Voiceless, place: Epiglottal, manner: Fricative, airstream: PulmonicEgressive }),
        'ʢ' => Some(Consonant { vocal_folds: Voiced, place: Epiglottal, manner: Fricative, airstream: PulmonicEgressive }),
        'ʡ' => Some(Consonant { vocal_folds: Voiceless, place: Epiglottal, manner: Plosive, airstream: PulmonicEgressive }),
        'ɕ' => Some(Consonant { vocal_folds: Voiceless, place: AlveoloPalatal, manner: Fricative, airstream: PulmonicEgressive }),
        'ʑ' => Some(Consonant { vocal_folds: Voiced, place: AlveoloPalatal, manner: Fricative, airstream: PulmonicEgressive }),
        'ɺ' => Some(Consonant { vocal_folds: Voiced, place: Alveolar, manner: LateralFlap, airstream: PulmonicEgressive }),
        // Clicks and voiced implosives.
        'ʘ' => Some(Consonant { vocal_folds: UnmarkedVocalFolds, place: Bilabial, manner: UnmarkedManner, airstream: Click }),
        'ǀ' => Some(Consonant { vocal_folds: UnmarkedVocalFolds, place: Dental, manner: UnmarkedManner, airstream: Click }),
        'ǃ' => Some(Consonant { vocal_folds: UnmarkedVocalFolds, place: Alveolar, manner: UnmarkedManner, airstream: Click }),
        'ǂ' => Some(Consonant { vocal_folds: UnmarkedVocalFolds, place: PalatoAlveolar, manner: UnmarkedManner, airstream: Click }),
        'ǁ' => Some(Consonant { vocal_folds: UnmarkedVocalFolds, place: Alveolar, manner: Lateral, airstream: Click }),
        'ɓ' => Some(Consonant { vocal_folds: Voiced, place: Bilabial, manner: UnmarkedManner, airstream: Implosive }),
        'ɗ' => Some(Consonant { vocal_folds: Voiced, place: Dental, manner: UnmarkedManner, airstream: Implosive }),
        'ʄ' => Some(Consonant { vocal_folds: Voiced, place: Palatal, manner: UnmarkedManner, airstream: Implosive }),
        'ɠ' => Some(Consonant { vocal_folds: Voiced, place: Velar, manner: UnmarkedManner, airstream: Implosive }),
        'ʛ' => Some(Consonant { vocal_folds: Voiced, place: Uvular, manner: UnmarkedManner, airstream: Implosive }),
        // Vowels.
        'i' => Some(Vowel { height: Close, backness: Front, rounding: Unrounded, vocal_folds: Voiced }),
        'y' => Some(Vowel { height: Close, backness: Front, rounding: Rounded, vocal_folds: Voiced }),
        'ɨ' => Some(Vowel { height: Close, backness: Central, rounding: Unrounded, vocal_folds: Voiced }),
        'ʉ' => Some(Vowel { height: Close, backness: Central, rounding: Rounded, vocal_folds: Voiced }),
        'ɯ' => Some(Vowel { height: Close, backness: Back, rounding: Unrounded, vocal_folds: Voiced }),
        'u' => Some(Vowel { height: Close, backness: Back, rounding: Rounded, vocal_folds: Voiced }),
        'ɪ' => Some(Vowel { height: NearClose, backness: Front, rounding: Unrounded, vocal_folds: Voiced }),
        'ʏ' => Some(Vowel { height: NearClose, backness: Front, rounding: Rounded, vocal_folds: Voiced }),
        'ʊ' => Some(Vowel { height: NearClose, backness: Back, rounding: Rounded, vocal_folds: Voiced }),
        'e' => Some(Vowel { height: CloseMid, backness: Front, rounding: Unrounded, vocal_folds: Voiced }),
        'ø' => Some(Vowel { height: CloseMid, backness: Front, rounding: Rounded, vocal_folds: Voiced }),
        'ɘ' => Some(Vowel { height: CloseMid, backness: Central, rounding: Unrounded, vocal_folds: Voiced }),
        'ɵ' => Some(Vowel { height: CloseMid, backness: Central, rounding: Rounded, vocal_folds: Voiced }),
        'ɤ' => Some(Vowel { height: CloseMid, backness: Back, rounding: Unrounded, vocal_folds: Voiced }),
        'o' => Some(Vowel { height: CloseMid, backness: Back, rounding: Rounded, vocal_folds: Voiced }),
        'ə' => Some(Vowel { height: Mid, backness: Central, rounding: UnmarkedRounding, vocal_folds: Voiced }),
        'ɛ' => Some(Vowel { height: OpenMid, backness: Front, rounding: Unrounded, vocal_folds: Voiced }),
        'œ' => Some(Vowel { height: OpenMid, backness: Front, rounding: Rounded, vocal_folds: Voiced }),
        'ɜ' => Some(Vowel { height: OpenMid, backness: Central, rounding: Unrounded, vocal_folds: Voiced }),
        'ɞ' => Some(Vowel { height: OpenMid, backness: Central, rounding: Rounded, vocal_folds: Voiced }),
        'ʌ' => Some(Vowel { height: OpenMid, backness: Back, rounding: Unrounded, vocal_folds: Voiced }),
        'ɔ' => Some(Vowel { height: OpenMid, backness: Back, rounding: Rounded, vocal_folds: Voiced }),
        'æ' => Some(Vowel { height: NearOpen, backness: Front, rounding: Unrounded, vocal_folds: Voiced }),
        'ɐ' => Some(Vowel { height: NearOpen, backness: Central, rounding: UnmarkedRounding, vocal_folds: Voiced }),
        'a' => Some(Vowel { height: Open, backness: Front, rounding: Unrounded, vocal_folds: Voiced }),
        'ɶ' => Some(Vowel { height: Open, backness: Front, rounding: Rounded, vocal_folds: Voiced }),
        'ɑ' => Some(Vowel { height: Open, backness: Back, rounding: Unrounded, vocal_folds: Voiced }),
        'ɒ' => Some(Vowel { height: Open, backness: Back, rounding: Rounded, vocal_folds: Voiced }),
        _ => None,
    }
}

/// Analyzes an affricate.
fn analyze_affricate(stop: char, tie: char, fricative: char) -> (r: Option<Phonet>)
    ensures
        r == spec_analyze_affricate(stop, tie, fricative),
{
    match (stop, tie, fricative) {
        ('t', TIE_ABOVE, 'ʃ') => Some(Consonant { vocal_folds: Voiceless, place: PostAlveolar, manner: Affricate, airstream: PulmonicEgressive }),
        ('d', TIE_ABOVE, 'ʒ') => Some(Consonant { vocal_folds: Voiced, place: PostAlveolar, manner: Affricate, airstream: PulmonicEgressive }),
        ('p', TIE_ABOVE, 'ɸ') => Some(Consonant { vocal_folds: Voiceless, place: Bilabial, manner: Affricate, airstream: PulmonicEgressive }),
        ('t', TIE_BELOW, 's') => Some(Consonant { vocal_folds: Voiceless, place: Alveolar, manner: Affricate, airstream: PulmonicEgressive }),
        ('d', TIE_ABOVE, 'z') => Some(Consonant { vocal_folds: Voiced, place: Alveolar, manner: Affricate, airstream: PulmonicEgressive }),
        ('k', TIE_ABOVE, 'x') => Some(Consonant { vocal_folds: Voiceless, place: Velar, manner: Affricate, airstream: PulmonicEgressive }),
        ('q', TIE_ABOVE, 'χ') => Some(Consonant { vocal_folds: Voiceless, place: Uvular, manner: Affricate, airstream: PulmonicEgressive }),
        _ => None,
    }
}

/// Analyzes a text of one character.
fn analyze_symbol(x: char) -> (r: Phonet)
    ensures
        r == spec_analyze_symbol(x),
{
    match analyze_listed_symbol(x) {
        Some(phonet) => phonet,
        None => analyze_transcriptionv2(x),
    }
}

/// Applies a diacritic to the phonet of the symbol that carries it.
fn apply_diacritic(full_grapheme: Phonet, diacritic: char) -> (r: Phonet)
    ensures
        r == spec_apply_diacritic(full_grapheme, diacritic),
{
    if diacritic == VOICELESS_MARK {
        match full_grapheme {
            Consonant { vocal_folds: _, place: place1, manner: manner1, airstream: airstream1 } => {
                Consonant { vocal_folds: Voiceless, place: place1, manner: manner1, airstream: airstream1 }
            },
            Vowel { height: height1, backness: backness1, rounding: rounding1, vocal_folds: _ } => {
                Vowel { height: height1, backness: backness1, rounding: rounding1, vocal_folds: Voiceless }
            },
        }
    } else if diacritic == VOICED_MARK {
        match full_grapheme {
            Consonant { vocal_folds: _, place: place1, manner: manner1, airstream: airstream1 } => {
                Consonant { vocal_folds: Voiced, place: place1, manner: manner1, airstream: airstream1 }
            },
            Vowel { height: height1, backness: backness1, rounding: rounding1, vocal_folds: _ } => {
                Vowel { height: height1, backness: backness1, rounding: rounding1, vocal_folds: Voiced }
            },
        }
    } else if diacritic == ASPIRATION_MARK {
        match full_grapheme {
            Consonant { vocal_folds: Voiced, place: place1, manner: manner1, airstream: airstream1 } => {
                Consonant { vocal_folds: VoicedAspirated, place: place1, manner: manner1, airstream: airstream1 }
            },
            Consonant { vocal_folds: Voiceless, place: place1, manner: manner1, airstream: airstream1 } => {
                Consonant { vocal_folds: VoicelessAspirated, place: place1, manner: manner1, airstream: airstream1 }
            },
            // An aspirated vowel has no description: the vowel stays as it is.
            Vowel { .. } => full_grapheme,
            _ => unrecognized_phonet(),
        }
    } else {
        unrecognized_phonet()
    }
}

/// Converts a symbol of the International Phonetic Alphabet to its analyzed
/// form, the phonet. The text is read by characters, so a symbol of several
/// bytes is one symbol. No text makes the analysis fail: what it does not
/// recognize comes back as `unrecognized()`.
pub fn analyze_transcription(text: String) -> (r: Phonet)
    ensures
        r == spec_analyze_transcription(text@),
{
    let symbols = text.as_str();
    let length = symbols.unicode_len();
    if length == 1 {
        analyze_symbol(symbols.get_char(0))
    } else if length == 2 {
        let full_grapheme = analyze_symbol(symbols.get_char(0));
        apply_diacritic(full_grapheme, symbols.get_char(1))
    } else if length == 3 {
        match analyze_affricate(symbols.get_char(0), symbols.get_char(1), symbols.get_char(2)) {
            Some(phonet) => phonet,
            None => unrecognized_phonet(),
        }
    } else {
        unrecognized_phonet()
    }
}

/// The symbol of an affricate: a stop, a tie bar and a fricative.
pub open spec fn spec_construct_affricate(phone_description: Phonet) -> Option<(char, char, char)> {
    match phone_description {
        Consonant { vocal_folds: Voiceless, place: PostAlveolar, manner: Affricate, airstream: PulmonicEgressive } => Some(('t', TIE_ABOVE, 'ʃ')),
        Consonant { vocal_folds: Voiced, place: PostAlveolar, manner: Affricate, airstream: PulmonicEgressive } => Some(('d', TIE_ABOVE, 'ʒ')),
        Consonant { vocal_folds: Voiceless, place: Bilabial, manner: Affricate, airstream: PulmonicEgressive } => Some(('p', TIE_ABOVE, 'ɸ')),
        Consonant { vocal_folds: Voiceless, place: Alveolar, manner: Affricate, airstream: PulmonicEgressive } => Some(('t', TIE_BELOW, 's')),
        Consonant { vocal_folds: Voiced, place: Alveolar, manner: Affricate, airstream: PulmonicEgressive } => Some(('d', TIE_ABOVE, 'z')),
        Consonant { vocal_folds: Voiceless, place: Velar, manner: Affricate, airstream: PulmonicEgressive } => Some(('k', TIE_ABOVE, 'x')),
        Consonant { vocal_folds: Voiceless, place: Uvular, manner: Affricate, airstream: PulmonicEgressive } => Some(('q', TIE_ABOVE, 'χ')),
        _ => None,
    }
}

/// The symbol of a phonet that stands outside the grid and is written with
/// one character.
pub open spec fn spec_construct_listed_symbol(phone_description: Phonet) -> Option<char> {
    match phone_description {
        // Other symbols.
        Consonant { vocal_folds: Voiced, place: LabialVelar, manner: Approximant, airstream: PulmonicEgressive } => Some('w'),
        Consonant { vocal_folds: Voiceless, place: LabialVelar, manner: Fricative, airstream: PulmonicEgressive } => Some('ʍ'),
        Consonant { vocal_folds: Voiced, place: LabialPalatal, manner: Approximant, airstream: PulmonicEgressive } => Some('ɥ'),
        Consonant { vocal_folds: Voiceless, place: Epiglottal, manner: Fricative, airstream: PulmonicEgressive } => Some('ʜ'),
        Consonant { vocal_folds: Voiced, place: Epiglottal, manner: Fricative, airstream: PulmonicEgressive } => Some('ʢ'),
        Consonant { vocal_folds: Voiceless, place: Epiglottal, manner: Plosive, airstream: PulmonicEgressive } => Some('ʡ'),
        Consonant { vocal_folds: Voiceless, place: AlveoloPalatal, manner: Fricative, airstream: PulmonicEgressive } => Some('ɕ'),
        Consonant { vocal_folds: Voiced, place: AlveoloPalatal, manner: Fricative, airstream: PulmonicEgressive } => Some('ʑ'),
        Consonant { vocal_folds: Voiced, place: Alveolar, manner: LateralFlap, airstream: PulmonicEgressive } => Some('ɺ'),
        // Clicks and voiced implosives.
        Consonant { vocal_folds: UnmarkedVocalFolds, place: Bilabial, manner: UnmarkedManner, airstream: Click } => Some('ʘ'),
        Consonant { vocal_folds: UnmarkedVocalFolds, place: Dental, manner: UnmarkedManner, airstream: Click } => Some('ǀ'),
        Consonant { vocal_folds: UnmarkedVocalFolds, place: Alveolar, manner: UnmarkedManner, airstream: Click } => Some('ǃ'),
        Consonant { vocal_folds: UnmarkedVocalFolds, place: PalatoAlveolar, manner: UnmarkedManner, airstream: Click } => Some('ǂ'),
        Consonant { vocal_folds: UnmarkedVocalFolds, place: Alveolar, manner: Lateral, airstream: Click } => Some('ǁ'),
        Consonant { vocal_folds: Voiced, place: Bilabial, manner: UnmarkedManner, airstream: Implosive } => Some('ɓ'),
        Consonant { vocal_folds: Voiced, place: Dental, manner: UnmarkedManner, airstream: Implosive } => Some('ɗ'),
        Consonant { vocal_folds: Voiced, place: Palatal, manner: UnmarkedManner, airstream: Implosive } => Some('ʄ'),
        Consonant { vocal_folds: Voiced, place: Velar, manner: UnmarkedManner, airstream: Implosive } => Some('ɠ'),
        Consonant { vocal_folds: Voiced, place: Uvular, manner: UnmarkedManner, airstream: Implosive } => Some('ʛ'),
        // Vowels.
        Vowel { height: Close, backness: Front, rounding: Unrounded, vocal_folds: Voiced } => Some('i'),
        Vowel { height: Close, backness: Front, rounding: Rounded, vocal_folds: Voiced } => Some('y'),
        Vowel { height: Close, backness: Central, rounding: Unrounded, vocal_folds: Voiced } => Some('ɨ'),
        Vowel { height: Close, backness: Central, rounding: Rounded, vocal_folds: Voiced } => Some('ʉ'),
        Vowel { height: Close, backness: Back, rounding: Unrounded, vocal_folds: Voiced } => Some('ɯ'),
        Vowel { height: Close, backness: Back, rounding: Rounded, vocal_folds: Voiced } => Some('u'),
        Vowel { height: NearClose, backness: Front, rounding: Unrounded, vocal_folds: Voiced } => Some('ɪ'),
        Vowel { height: NearClose, backness: Front, rounding: Rounded, vocal_folds: Voiced } => Some('ʏ'),
        Vowel { height: NearClose, backness: Back, rounding: Rounded, vocal_folds: Voiced } => Some('ʊ'),
        Vowel { height: CloseMid, backness: Front, rounding: Unrounded, vocal_folds: Voiced } => Some('e'),
        Vowel { height: CloseMid, backness: Front, rounding: Rounded, vocal_folds: Voiced } => Some('ø'),
        Vowel { height: CloseMid, backness: Central, rounding: Unrounded, vocal_folds: Voiced } => Some('ɘ'),
        Vowel { height: CloseMid, backness: Central, rounding: Rounded, vocal_folds: Voiced } => Some('ɵ'),
        Vowel { height: CloseMid, backness: Back, rounding: Unrounded, vocal_folds: Voiced } => Some('ɤ'),
        Vowel { height: CloseMid, backness: Back, rounding: Rounded, vocal_folds: Voiced } => Some('o'),
        Vowel { height: Mid, backness: Central, rounding: UnmarkedRounding, vocal_folds: Voiced } => Some('ə'),
        Vowel { height: OpenMid, backness: Front, rounding: Unrounded, vocal_folds: Voiced } => Some('ɛ'),
        Vowel { height: OpenMid, backness: Front, rounding: Rounded, vocal_folds: Voiced } => Some('œ'),
        Vowel { height: OpenMid, backness: Central, rounding: Unrounded, vocal_folds: Voiced } => Some('ɜ'),
        Vowel { height: OpenMid, backness: Central, rounding: Rounded, vocal_folds: Voiced } => Some('ɞ'),
        Vowel { height: OpenMid, backness: Back, rounding: Unrounded, vocal_folds: Voiced } => Some('ʌ'),
        Vowel { height: OpenMid, backness: Back, rounding: Rounded, vocal_folds: Voiced } => Some('ɔ'),
        Vowel { height: NearOpen, backness: Front, rounding: Unrounded, vocal_folds: Voiced } => Some('æ'),
        Vowel { height: NearOpen, backness: Central, rounding: UnmarkedRounding, vocal_folds: Voiced } => Some('ɐ'),
        Vowel { height: Open, backness: Front, rounding: Unrounded, vocal_folds: Voiced } => Some('a'),
        Vowel { height: Open, backness: Front, rounding: Rounded, vocal_folds: Voiced } => Some('ɶ'),
        Vowel { height: Open, backness: Back, rounding: Unrounded, vocal_folds: Voiced } => Some('ɑ'),
        Vowel { height: Open, backness: Back, rounding: Rounded, vocal_folds: Voiced } => Some('ɒ'),
        _ => None,
    }
}

/// The row of a manner in the grid.
pub open spec fn spec_manner_to_row_index(manner: Manner) -> Option<usize> {
    match manner {
        Plosive => Some(0),
        Nasal => Some(1),
        Trill => Some(2),
        TapOrFlap => Some(3),
        Fricative => Some(4),
        LateralFricative => Some(5),
        Approximant => Some(6),
        LateralApproximant => Some(7),
        _ => None,
    }
}

/// The pair of columns of a place in the grid: its position in the fixed order
/// of places, for the places that have columns.
pub open spec fn spec_place_to_half_col_index(place: Place) -> Option<usize> {
    if place.ordinal() < PULMONIC_PLACES {
        Some(place.ordinal() as usize)
    } else {
        None
    }
}

/// Which column of a pair a voicing selects: the first for a voiceless sound,
/// the second for a voiced one.
pub open spec fn spec_voicing_to_col_index_offset(vocal_folds: VocalFolds) -> usize {
    match vocal_folds {
        Voiceless => 0,
        Voiced => 1,
        VoicelessAspirated => 0,
        VoicedAspirated => 1,
        CreakyVoiced => 1,
        UnmarkedVocalFolds => 0,
    }
}

/// The column of a voicing and a place in the grid.
pub open spec fn spec_voicing_and_place_to_col_index(voicing: VocalFolds, place: Place) -> Option<usize> {
    match spec_place_to_half_col_index(place) {
        Some(half_col_index) => Some((2 * half_col_index + spec_voicing_to_col_index_offset(voicing)) as usize),
        None => None,
    }
}

/// The symbol in the cell of the grid that the manner, the place and the
/// voicing of a consonant select, whatever its airstream. There is none where
/// the grid has no row or no column for the consonant, or a blank in its cell.
pub open spec fn spec_construct_unaspirated_pulmonic_egressive(phone_description: Phonet) -> Option<char> {
    match phone_description {
        Consonant { vocal_folds, place, manner, .. } => match (
            spec_manner_to_row_index(manner),
            spec_voicing_and_place_to_col_index(vocal_folds, place),
        ) {
            (Some(row_index), Some(col_index)) => {
                let symbol = CONSONANTS_PULMONIC_TABLE@[row_index as int]@[col_index as int];
                if symbol == BLANK {
                    None
                } else {
                    Some(symbol)
                }
            },
            _ => None,
        },
        Vowel { .. } => None,
    }
}

/// The same sound without its aspiration.
pub open spec fn spec_deaspirate(phone_description: Phonet) -> Phonet {
    match phone_description {
        Consonant { vocal_folds: VoicedAspirated, .. } => phone_description.with_voicing(Voiced),
        Consonant { vocal_folds: VoicelessAspirated, .. } => phone_description.with_voicing(Voiceless),
        other => other,
    }
}

/// The text of a phonet that the charts hold. A listed symbol is written as
/// it is. A pulmonic consonant that is plainly voiced or voiceless is written
/// with the symbol in its cell of the grid, and an aspirated one with the
/// symbol of its unaspirated counterpart and the aspiration mark. Every other
/// phonet has no such text.
pub open spec fn spec_construct_transcription1(phone_description: Phonet) -> Option<Seq<char>> {
    match spec_construct_listed_symbol(phone_description) {
        Some(symbol) => Some(seq![symbol]),
        None => match phone_description {
            Consonant { vocal_folds, airstream: PulmonicEgressive, .. } => {
                if vocal_folds == Voiced || vocal_folds == Voiceless {
                    match spec_construct_unaspirated_pulmonic_egressive(phone_description) {
                        Some(symbol) => Some(seq![symbol]),
                        None => None,
                    }
                } else if vocal_folds == VoicedAspirated || vocal_folds == VoicelessAspirated {
                    match spec_construct_unaspirated_pulmonic_egressive(spec_deaspirate(phone_description)) {
                        Some(symbol) => Some(seq![symbol, ASPIRATION_MARK]),
                        None => None,
                    }
                } else {
                    None
                }
            },
            _ => None,
        },
    }
}

/// A text with a diacritic behind it; the sign for no symbol where there is
/// no text to put the diacritic on.
pub open spec fn spec_with_diacritic(base: Option<Seq<char>>, diacritic: char) -> Seq<char> {
    match base {
        Some(text) => text.push(diacritic),
        None => seq![NO_SYMBOL],
    }
}

/// The text of a phonet that the charts do not hold: the text of a neighbour
/// that they may hold, with the diacritic that leads back from the neighbour.
/// A postalveolar consonant is written as the retracted alveolar one. Any
/// other voiceless sound is written as its voiced counterpart made voiceless,
/// and a voiced sound as its voiceless counterpart made voiced. The neighbour
/// is looked up in the charts and never written with a diacritic in turn.
/// Where the neighbour has no text either, and for every other phonet, the
/// result is the sign for no symbol.
pub open spec fn spec_construct_transcription2(phonet: Phonet) -> Seq<char> {
    match phonet {
        Consonant { vocal_folds, place: PostAlveolar, manner, airstream } => spec_with_diacritic(
            spec_construct_transcription1(Consonant { vocal_folds, place: Alveolar, manner, airstream }),
            RETRACTION_MARK,
        ),
        _ => if phonet.voicing() == Voiceless {
            spec_with_diacritic(spec_construct_transcription1(phonet.with_voicing(Voiced)), VOICELESS_MARK)
        } else if phonet.voicing() == Voiced {
            spec_with_diacritic(spec_construct_transcription1(phonet.with_voicing(Voiceless)), VOICED_MARK)
        } else {
            seq![NO_SYMBOL]
        },
    }
}

/// The text that writes a phonet: the symbol of an affricate, else the text
/// that the charts hold for it, else a text with a diacritic, else the sign
/// for no symbol.
pub open spec fn spec_construct_transcription(phone_description: Phonet) -> Seq<char> {
    match spec_construct_affricate(phone_description) {
        Some((stop, tie, fricative)) => seq![stop, tie, fricative],
        None => match spec_construct_transcription1(phone_description) {
            Some(text) => text,
            None => spec_construct_transcription2(phone_description),
        },
    }
}

/// `String::push` of the standard library appends one character to the end of
/// the string and leaves the characters before it as they were. This is what
/// the documentation of the standard library says of it; it is taken on trust
/// here and not proved.
pub assume_specification[ String::push ](text: &mut String, ch: char)
    ensures
        final(text)@ == old(text)@.push(ch),
;

/// The text that consists of one character.
fn symbol_text(symbol: char) -> (r: String)
    ensures
        r@ == seq![symbol],
{
    let mut text = String::new();
    text.push(symbol);
    text
}

/// Finds the row of a manner in the grid.
pub fn manner_to_row_index(manner: Manner) -> (r: Option<usize>)
    ensures
        r == spec_manner_to_row_index(manner),
{
    for row_index in 0..8usize
        invariant
            forall|k: int| 0 <= k < row_index ==> PULMONIC_ROWS@[k] != manner,
    {
        if PULMONIC_ROWS[row_index] == manner {
            return Some(row_index);
        }
    }
    None
}

/// Finds the pair of columns of a place in the grid.
pub fn place_to_half_col_index(place: Place) -> (r: Option<usize>)
    ensures
        r == spec_place_to_half_col_index(place),
{
    for half_col_index in 0..PULMONIC_PLACES
        invariant
            forall|k: int| 0 <= k < half_col_index ==> PLACE_STATES@[k] != place,
    {
        if PLACE_STATES[half_col_index] == place {
            return Some(half_col_index);
        }
    }
    None
}

/// Tells which column of a pair a voicing selects.
pub fn voicing_to_col_index_offset(vocal_folds: VocalFolds) -> (r: usize)
    ensures
        r == spec_voicing_to_col_index_offset(vocal_folds),
{
    match vocal_folds {
        Voiceless => 0,
        Voiced => 1,
        VoicelessAspirated => 0,
        VoicedAspirated => 1,
        CreakyVoiced => 1,
        UnmarkedVocalFolds => 0,
    }
}

/// Finds the column of a voicing and a place in the grid.
pub fn voicing_and_place_to_col_index(voicing: VocalFolds, place: Place) -> (r: Option<usize>)
    ensures
        r == spec_voicing_and_place_to_col_index(voicing, place),
        r matches Some(col_index) ==> col_index < 22,
{
    match place_to_half_col_index(place) {
        Some(half_col_index) => Some((2 * half_col_index) + voicing_to_col_index_offset(voicing)),
        None => None,
    }
}

/// Reads the symbol of a consonant from the grid.
pub fn construct_unaspirated_pulmonic_egressive(phone_description: Phonet) -> (r: Option<char>)
    ensures
        r == spec_construct_unaspirated_pulmonic_egressive(phone_description),
{
    match phone_description {
        Consonant { vocal_folds: voicing1, place: place1, manner: manner1, airstream: _ } => {
            match (manner_to_row_index(manner1), voicing_and_place_to_col_index(voicing1, place1)) {
                (Some(row_index), Some(col_index)) => {
                    let symbol = CONSONANTS_PULMONIC_TABLE[row_index][col_index];
                    if symbol == BLANK {
                        None
                    } else {
                        Some(symbol)
                    }
                },
                _ => None,
            }
        },
        _ => None,
    }
}

/// Takes the aspiration from a consonant.
pub fn deaspirate(phone_description: Phonet) -> (r: Phonet)
    ensures
        r == spec_deaspirate(phone_description),
{
    match phone_description {
        Consonant { vocal_folds: VoicedAspirated, place: place1, manner: manner1, airstream: airstream1 } => {
            Consonant { vocal_folds: Voiced, place: place1, manner: manner1, airstream: airstream1 }
        },
        Consonant { vocal_folds: VoicelessAspirated, place: place1, manner: manner1, airstream: airstream1 } => {
            Consonant { vocal_folds: Voiceless, place: place1, manner: manner1, airstream: airstream1 }
        },
        x => x,
    }
}

/// Looks up the symbol of an affricate.
fn construct_affricate(phone_description: Phonet) -> (r: Option<(char, char, char)>)
    ensures
        r == spec_construct_affricate(phone_description),
{
    match phone_description {
        Consonant { vocal_folds: Voiceless, place: PostAlveolar, manner: Affricate, airstream: PulmonicEgressive } => Some(('t', TIE_ABOVE, 'ʃ')),
        Consonant { vocal_folds: Voiced, place: PostAlveolar, manner: Affricate, airstream: PulmonicEgressive } => Some(('d', TIE_ABOVE, 'ʒ')),
        Consonant { vocal_folds: Voiceless, place: Bilabial, manner: Affricate, airstream: PulmonicEgressive } => Some(('p', TIE_ABOVE, 'ɸ')),
        Consonant { vocal_folds: Voiceless, place: Alveolar, manner: Affricate, airstream: PulmonicEgressive } => Some(('t', TIE_BELOW, 's')),
        Consonant { vocal_folds: Voiced, place: Alveolar, manner: Affricate, airstream: PulmonicEgressive } => Some(('d', TIE_ABOVE, 'z')),
        Consonant { vocal_folds: Voiceless, place: Velar, manner: Affricate, airstream: PulmonicEgressive } => Some(('k', TIE_ABOVE, 'x')),
        Consonant { vocal_folds: Voiceless, place: Uvular, manner: Affricate, airstream: PulmonicEgressive } => Some(('q', TIE_ABOVE, 'χ')),
        _ => None,
    }
}

/// Looks up the symbol of a phonet that stands outside the grid.
fn construct_listed_symbol(phone_description: Phonet) -> (r: Option<char>)
    ensures
        r == spec_construct_listed_symbol(phone_description),
{
    match phone_description {
        // Other symbols.
        Consonant { vocal_folds: Voiced, place: LabialVelar, manner: Approximant, airstream: PulmonicEgressive } => Some('w'),
        Consonant { vocal_folds: Voiceless, place: LabialVelar, manner: Fricative, airstream: PulmonicEgressive } => Some('ʍ'),
        Consonant { vocal_folds: Voiced, place: LabialPalatal, manner: Approximant, airstream: PulmonicEgressive } => Some('ɥ'),
        Consonant { vocal_folds: Voiceless, place: Epiglottal, manner: Fricative, airstream: PulmonicEgressive } => Some('ʜ'),
        Consonant { vocal_folds: Voiced, place: Epiglottal, manner: Fricative, airstream: PulmonicEgressive } => Some('ʢ'),
        Consonant { vocal_folds: Voiceless, place: Epiglottal, manner: Plosive, airstream: PulmonicEgressive } => Some('ʡ'),
        Consonant { vocal_folds: Voiceless, place: AlveoloPalatal, manner: Fricative, airstream: PulmonicEgressive } => Some('ɕ'),
        Consonant { vocal_folds: Voiced, place: AlveoloPalatal, manner: Fricative, airstream: PulmonicEgressive } => Some('ʑ'),
        Consonant { vocal_folds: Voiced, place: Alveolar, manner: LateralFlap, airstream: PulmonicEgressive } => Some('ɺ'),
        // Clicks and voiced implosives.
        Consonant { vocal_folds: UnmarkedVocalFolds, place: Bilabial, manner: UnmarkedManner, airstream: Click } => Some('ʘ'),
        Consonant { vocal_folds: UnmarkedVocalFolds, place: Dental, manner: UnmarkedManner, airstream: Click } => Some('ǀ'),
        Consonant { vocal_folds: UnmarkedVocalFolds, place: Alveolar, manner: UnmarkedManner, airstream: Click } => Some('ǃ'),
        Consonant { vocal_folds: UnmarkedVocalFolds, place: PalatoAlveolar, manner: UnmarkedManner, airstream: Click } => Some('ǂ'),
        Consonant { vocal_folds: UnmarkedVocalFolds, place: Alveolar, manner: Lateral, airstream: Click } => Some('ǁ'),
        Consonant { vocal_folds: Voiced, place: Bilabial, manner: UnmarkedManner, airstream: Implosive } => Some('ɓ'),
        Consonant { vocal_folds: Voiced, place: Dental, manner: UnmarkedManner, airstream: Implosive } => Some('ɗ'),
        Consonant { vocal_folds: Voiced, place: Palatal, manner: UnmarkedManner, airstream: Implosive } => Some('ʄ'),
        Consonant { vocal_folds: Voiced, place: Velar, manner: UnmarkedManner, airstream: Implosive } => Some('ɠ'),
        Consonant { vocal_folds: Voiced, place: Uvular, manner: UnmarkedManner, airstream: Implosive } => Some('ʛ'),
        // Vowels.
        Vowel { height: Close, backness: Front, rounding: Unrounded, vocal_folds: Voiced } => Some('i'),
        Vowel { height: Close, backness: Front, rounding: Rounded, vocal_folds: Voiced } => Some('y'),
        Vowel { height: Close, backness: Central, rounding: Unrounded, vocal_folds: Voiced } => Some('ɨ'),
        Vowel { height: Close, backness: Central, rounding: Rounded, vocal_folds: Voiced } => Some('ʉ'),
        Vowel { height: Close, backness: Back, rounding: Unrounded, vocal_folds: Voiced } => Some('ɯ'),
        Vowel { height: Close, backness: Back, rounding: Rounded, vocal_folds: Voiced } => Some('u'),
        Vowel { height: NearClose, backness: Front, rounding: Unrounded, vocal_folds: Voiced } => Some('ɪ'),
        Vowel { height: NearClose, backness: Front, rounding: Rounded, vocal_folds: Voiced } => Some('ʏ'),
        Vowel { height: NearClose, backness: Back, rounding: Rounded, vocal_folds: Voiced } => Some('ʊ'),
        Vowel { height: CloseMid, backness: Front, rounding: Unrounded, vocal_folds: Voiced } => Some('e'),
        Vowel { height: CloseMid, backness: Front, rounding: Rounded, vocal_folds: Voiced } => Some('ø'),
        Vowel { height: CloseMid, backness: Central, rounding: Unrounded, vocal_folds: Voiced } => Some('ɘ'),
        Vowel { height: CloseMid, backness: Central, rounding: Rounded, vocal_folds: Voiced } => Some('ɵ'),
        Vowel { height: CloseMid, backness: Back, rounding: Unrounded, vocal_folds: Voiced } => Some('ɤ'),
        Vowel { height: CloseMid, backness: Back, rounding: Rounded, vocal_folds: Voiced } => Some('o'),
        Vowel { height: Mid, backness: Central, rounding: UnmarkedRounding, vocal_folds: Voiced } => Some('ə'),
        Vowel { height: OpenMid, backness: Front, rounding: Unrounded, vocal_folds: Voiced } => Some('ɛ'),
        Vowel { height: OpenMid, backness: Front, rounding: Rounded, vocal_folds: Voiced } => Some('œ'),
        Vowel { height: OpenMid, backness: Central, rounding: Unrounded, vocal_folds: Voiced } => Some('ɜ'),
        Vowel { height: OpenMid, backness: Central, rounding: Rounded, vocal_folds: Voiced } => Some('ɞ'),
        Vowel { height: OpenMid, backness: Back, rounding: Unrounded, vocal_folds: Voiced } => Some('ʌ'),
        Vowel { height: OpenMid, backness: Back, rounding: Rounded, vocal_folds: Voiced } => Some('ɔ'),
        Vowel { height: NearOpen, backness: Front, rounding: Unrounded, vocal_folds: Voiced } => Some('æ'),
        Vowel { height: NearOpen, backness: Central, rounding: UnmarkedRounding, vocal_folds: Voiced } => Some('ɐ'),
        Vowel { height: Open, backness: Front, rounding: Unrounded, vocal_folds: Voiced } => Some('a'),
        Vowel { height: Open, backness: Front, rounding: Rounded, vocal_folds: Voiced } => Some('ɶ'),
        Vowel { height: Open, backness: Back, rounding: Unrounded, vocal_folds: Voiced } => Some('ɑ'),
        Vowel { height: Open, backness: Back, rounding: Rounded, vocal_folds: Voiced } => Some('ɒ'),
        _ => None,
    }
}

/// Constructs the text of a phonet that the charts hold, without diacritics
/// but for the aspiration mark. The result is `None` where the charts have no
/// symbol for the phonet.
pub fn construct_transcription1(phone_description: Phonet) -> (r: Option<String>)
    ensures
        r.deep_view() == spec_construct_transcription1(phone_description),
{
    match construct_listed_symbol(phone_description) {
        Some(symbol) => Some(symbol_text(symbol)),
        None => match phone_description {
            c @ Consonant { vocal_folds: Voiced, place: _, manner: _, airstream: PulmonicEgressive } => {
                match construct_unaspirated_pulmonic_egressive(c) {
                    Some(symbol) => Some(symbol_text(symbol)),
                    None => None,
                }
            },
            c @ Consonant { vocal_folds: VoicedAspirated, place: _, manner: _, airstream: PulmonicEgressive } => {
                match construct_unaspirated_pulmonic_egressive(deaspirate(c)) {
                    Some(symbol) => {
                        let mut text = symbol_text(symbol);
                        text.push(ASPIRATION_MARK);
                        Some(text)
                    },
                    None => None,
                }
            },
            c @ Consonant { vocal_folds: Voiceless, place: _, manner: _, airstream: PulmonicEgressive } => {
                match construct_unaspirated_pulmonic_egressive(c) {
                    Some(symbol) => Some(symbol_text(symbol)),
                    None => None,
                }
            },
            c @ Consonant { vocal_folds: VoicelessAspirated, place: _, manner: _, airstream: PulmonicEgressive } => {
                match construct_unaspirated_pulmonic_egressive(deaspirate(c)) {
                    Some(symbol) => {
                        let mut text = symbol_text(symbol);
                        text.push(ASPIRATION_MARK);
                        Some(text)
                    },
                    None => None,
                }
            },
            _ => None,
        },
    }
}

/// Puts a diacritic behind a text, or gives the sign for no symbol where
/// there is no text.
fn with_diacritic(base: Option<String>, diacritic: char) -> (r: String)
    ensures
        r@ == spec_with_diacritic(base.deep_view(), diacritic),
{
    match base {
        Some(text) => {
            let mut text = text;
            text.push(diacritic);
            text
        },
        None => symbol_text(NO_SYMBOL),
    }
}

/// Constructs the text of a phonet that the charts do not hold, with one
/// diacritic on the symbol of a neighbouring phonet. It looks the neighbour up
/// with `construct_transcription1` and never calls itself, so it cannot go
/// back and forth between a voiced sound without a symbol and a voiceless one
/// without a symbol.
pub fn construct_transcription2(phonet: Phonet) -> (r: String)
    ensures
        r@ == spec_construct_transcription2(phonet),
{
    match phonet {
        Consonant { vocal_folds: x, place: PostAlveolar, manner: y, airstream: z } => {
            with_diacritic(
                construct_transcription1(Consonant { vocal_folds: x, place: Alveolar, manner: y, airstream: z }),
                RETRACTION_MARK,
            )
        },
        Consonant { vocal_folds: Voiceless, place: x, manner: y, airstream: z } => {
            with_diacritic(
                construct_transcription1(Consonant { vocal_folds: Voiced, place: x, manner: y, airstream: z }),
                VOICELESS_MARK,
            )
        },
        Vowel { height: x, backness: y, rounding: z, vocal_folds: Voiceless } => {
            with_diacritic(
                construct_transcription1(Vowel { height: x, backness: y, rounding: z, vocal_folds: Voiced }),
                VOICELESS_MARK,
            )
        },
        Consonant { vocal_folds: Voiced, place: x, manner: y, airstream: z } => {
            with_diacritic(
                construct_transcription1(Consonant { vocal_folds: Voiceless, place: x, manner: y, airstream: z }),
                VOICED_MARK,
            )
        },
        Vowel { height: x, backness: y, rounding: z, vocal_folds: Voiced } => {
            with_diacritic(
                construct_transcription1(Vowel { height: x, backness: y, rounding: z, vocal_folds: Voiceless }),
                VOICED_MARK,
            )
        },
        _ => symbol_text(NO_SYMBOL),
    }
}

/// Converts a phonet to its symbol in the International Phonetic Alphabet.
/// Every phonet has a text: where no symbol can be constructed, the text is
/// the sign for no symbol.
pub fn construct_transcription(phone_description: Phonet) -> (r: String)
    ensures
        r@ == spec_construct_transcription(phone_description),
{
    match construct_affricate(phone_description) {
        Some((stop, tie, fricative)) => {
            let mut text = symbol_text(stop);
            text.push(tie);
            text.push(fricative);
            text
        },
        None => {
            // A symbol of the charts where there is one, a symbol with a
            // diacritic otherwise.
            match construct_transcription1(phone_description) {
                Some(simple_result) => simple_result,
                None => construct_transcription2(phone_description),
            }
        },
    }
}

/// Writes the voiced counterpart of a sound.
pub fn voiced_transcription(x: String) -> (r: String)
    ensures
        r@ == spec_construct_transcription(spec_voiced_phonet(spec_analyze_transcription(x@))),
{
    construct_transcription(voiced_phonet(analyze_transcription(x)))
}

/// Writes the voiceless counterpart of a sound.
pub fn devoiced_transcription(x: String) -> (r: String)
    ensures
        r@ == spec_construct_transcription(spec_devoiced_phonet(spec_analyze_transcription(x@))),
{
    construct_transcription(devoiced_phonet(analyze_transcription(x)))
}

/// Writes the fricative that a stop turns into.
pub fn spirantized_transcription(x: String) -> (r: String)
    ensures
        r@ == spec_construct_transcription(spec_spirantized_phonet(spec_analyze_transcription(x@))),
{
    construct_transcription(spirantized_phonet(analyze_transcription(x)))
}

/// Whether a character is a symbol of the charts that a phonet describes: a
/// symbol of the grid, a vowel, a click, an implosive or one of the other
/// symbols, save the one for a sound with two places of articulation.
pub open spec fn is_chart_symbol(x: char) -> bool {
    ||| VOWELS@.contains(x)
    ||| CONSONANTS_NON_PULMONIC@.contains(x)
    ||| OTHER_SYMBOLS@.contains(x) && x != SIMULTANEOUS_SH_AND_X
    ||| x != BLANK && exists|row_index: int, col_index: int|
        0 <= row_index < 8 && 0 <= col_index < 22
            && CONSONANTS_PULMONIC_TABLE@[row_index]@[col_index] == x
}

/// Analysis and construction read the list of symbols outside the grid as one
/// list: a symbol is analyzed as a phonet exactly if that phonet is written
/// with the symbol.
pub proof fn lemma_listed_symbols_mirror(x: char, phonet: Phonet)
    ensures
        spec_analyze_listed_symbol(x) == Some(phonet) <==> spec_construct_listed_symbol(phonet) == Some(x),
{
}

/// Analysis and construction read the list of affricates as one list.
pub proof fn lemma_affricates_mirror(stop: char, tie: char, fricative: char, phonet: Phonet)
    ensures
        spec_analyze_affricate(stop, tie, fricative) == Some(phonet) <==> spec_construct_affricate(phonet)
            == Some((stop, tie, fricative)),
{
}

/// Analysis and construction read the grid as one grid: a symbol of the grid
/// is analyzed as a phonet exactly if that phonet is a plainly voiced or
/// voiceless pulmonic consonant in whose cell the symbol stands.
pub proof fn lemma_grid_mirror(x: char, phonet: Phonet)
    ensures
        spec_pulmonic_position(x) is Some && spec_analyze_transcriptionv2(x) == phonet <==> {
            &&& phonet matches Consonant { vocal_folds, airstream, .. }
            &&& airstream == PulmonicEgressive
            &&& (vocal_folds == Voiced || vocal_folds == Voiceless)
            &&& spec_construct_unaspirated_pulmonic_egressive(phonet) == Some(x)
        },
{
}

/// Every symbol of the charts comes back from analysis and construction: the
/// text of the phonet of a symbol is the symbol.
pub proof fn lemma_symbol_round_trip(x: char)
    requires
        is_chart_symbol(x),
    ensures
        spec_construct_transcription(spec_analyze_transcription(seq![x])) == seq![x],
{
}

/// Every affricate comes back from analysis and construction.
pub proof fn lemma_affricate_round_trip(stop: char, tie: char, fricative: char)
    requires
        spec_analyze_affricate(stop, tie, fricative) is Some,
    ensures
        spec_construct_transcription(spec_analyze_transcription(seq![stop, tie, fricative])) == seq![
            stop,
            tie,
            fricative,
        ],
{
}

/// No symbol stands both in the grid and in the list beside it.
pub proof fn lemma_grid_symbols_are_not_listed(x: char)
    ensures
        !(spec_pulmonic_position(x) is Some && spec_analyze_listed_symbol(x) is Some),
{
}

/// The text that the charts hold for a phonet is one symbol, or one symbol
/// and the aspiration mark. The symbol is analyzed as the phonet itself, or as
/// its unaspirated counterpart where the mark follows.
pub proof fn lemma_chart_text_analysis(phonet: Phonet)
    requires
        spec_construct_transcription1(phonet) is Some,
    ensures
        ({
            let text = spec_construct_transcription1(phonet).unwrap();
            let aspirated = phonet.voicing() == VoicedAspirated || phonet.voicing() == VoicelessAspirated;
            &&& text.len() == (if aspirated {
                2nat
            } else {
                1nat
            })
            &&& spec_analyze_symbol(text[0]) == spec_deaspirate(phonet)
            &&& aspirated ==> phonet is Consonant && text[1] == ASPIRATION_MARK
        }),
{
    match spec_construct_listed_symbol(phonet) {
        Some(symbol) => {
            lemma_listed_symbols_mirror(symbol, phonet);
        },
        None => {
            let plain = spec_deaspirate(phonet);
            let symbol = spec_construct_unaspirated_pulmonic_egressive(plain).unwrap();
            lemma_grid_mirror(symbol, plain);
            lemma_grid_symbols_are_not_listed(symbol);
        },
    }
}

/// The analysis undoes the construction. The phonet comes back from its text,
/// unless the text was made with the retraction mark, which the analysis does
/// not read, or is the sign for no symbol.
pub proof fn lemma_transcription_round_trip(phonet: Phonet)
    requires
        spec_construct_transcription(phonet).last() != RETRACTION_MARK,
        spec_construct_transcription(phonet) != seq![NO_SYMBOL],
    ensures
        spec_analyze_transcription(spec_construct_transcription(phonet)) == phonet,
{
    let text = spec_construct_transcription(phonet);
    if let Some((stop, tie, fricative)) = spec_construct_affricate(phonet) {
        lemma_affricates_mirror(stop, tie, fricative, phonet);
    } else if spec_construct_transcription1(phonet) is Some {
        lemma_chart_text_analysis(phonet);
    } else {
        let neighbour = match phonet {
            Consonant { vocal_folds, place: PostAlveolar, manner, airstream } => Consonant {
                vocal_folds,
                place: Alveolar,
                manner,
                airstream,
            },
            _ => if phonet.voicing() == Voiceless {
                phonet.with_voicing(Voiced)
            } else {
                phonet.with_voicing(Voiceless)
            },
        };
        if spec_construct_transcription1(neighbour) is Some {
            lemma_chart_text_analysis(neighbour);
            let base = spec_construct_transcription1(neighbour).unwrap();
            assert(text.len() == base.len() + 1);
            assert(text[0] == base[0]);
        }
    }
}

/// The text of a phonet has one to three characters.
pub proof fn lemma_transcription_len(phonet: Phonet)
    ensures
        1 <= spec_construct_transcription(phonet).len() <= 3,
{
}

} // verus!
