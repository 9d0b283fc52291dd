//! The phonet: one speech sound as a bundle of features, and the rewrite
//! rules that change its voicing or turn a stop into a fricative.

use crate::features::{Airstream, Backness, Height, Manner, Place, Rounding, VocalFolds};
use vstd::prelude::*;

verus! {

/// A speech sound, described by its features. Every field ranges over its
/// whole domain, the unmarked value included; no combination is excluded.
#[derive(Clone, Copy, PartialEq, Eq, Structural, Debug, Hash)]
pub enum Phonet {
    Consonant { vocal_folds: VocalFolds, place: Place, manner: Manner, airstream: Airstream },
    Vowel { height: Height, backness: Backness, rounding: Rounding, vocal_folds: VocalFolds },
}

impl Phonet {
    /// The voicing, which is the one feature that both variants have.
    pub open spec fn voicing(self) -> VocalFolds {
        match self {
            Phonet::Consonant { vocal_folds, .. } => vocal_folds,
            Phonet::Vowel { vocal_folds, .. } => vocal_folds,
        }
    }

    /// The same sound with another voicing.
    pub open spec fn with_voicing(self, voicing: VocalFolds) -> Phonet {
        match self {
            Phonet::Consonant { place, manner, airstream, .. } => Phonet::Consonant {
                vocal_folds: voicing,
                place,
                manner,
                airstream,
            },
            Phonet::Vowel { height, backness, rounding, .. } => Phonet::Vowel {
                height,
                backness,
                rounding,
                vocal_folds: voicing,
            },
        }
    }

    /// Whether both sounds are consonants or both are vowels.
    pub open spec fn same_variant(self, other: Phonet) -> bool {
        (self is Consonant) == (other is Consonant)
    }

    /// Whether no field holds an unmarked value.
    pub open spec fn is_concrete(self) -> bool {
        match self {
            Phonet::Consonant { vocal_folds, place, manner, airstream } => {
                &&& vocal_folds.is_marked()
                &&& place.is_marked()
                &&& manner.is_marked()
                &&& airstream.is_marked()
            },
            Phonet::Vowel { height, backness, rounding, vocal_folds } => {
                &&& height.is_marked()
                &&& backness.is_marked()
                &&& rounding.is_marked()
                &&& vocal_folds.is_marked()
            },
        }
    }
}

/// The voiced counterpart of a consonant's voicing: voiceless becomes voiced
/// and keeps its aspiration; every other value is left as it is.
pub open spec fn voiced_folds(voicing: VocalFolds) -> VocalFolds {
    match voicing {
        VocalFolds::Voiceless => VocalFolds::Voiced,
        VocalFolds::VoicelessAspirated => VocalFolds::VoicedAspirated,
        other => other,
    }
}

/// The voiceless counterpart of a consonant's voicing: voiced becomes
/// voiceless and keeps its aspiration; every other value is left as it is.
pub open spec fn devoiced_folds(voicing: VocalFolds) -> VocalFolds {
    match voicing {
        VocalFolds::Voiced => VocalFolds::Voiceless,
        VocalFolds::VoicedAspirated => VocalFolds::VoicelessAspirated,
        other => other,
    }
}

/// Voicing as a rule on phonets. A consonant changes its voicing by
/// `voiced_folds`; a vowel becomes plainly voiced whatever it was. Nothing but
/// the voicing changes.
pub open spec fn spec_voiced_phonet(phonet: Phonet) -> Phonet {
    match phonet {
        Phonet::Consonant { vocal_folds, .. } => phonet.with_voicing(voiced_folds(vocal_folds)),
        Phonet::Vowel { .. } => phonet.with_voicing(VocalFolds::Voiced),
    }
}

/// Devoicing as a rule on phonets, the mirror image of `spec_voiced_phonet`.
pub open spec fn spec_devoiced_phonet(phonet: Phonet) -> Phonet {
    match phonet {
        Phonet::Consonant { vocal_folds, .. } => phonet.with_voicing(devoiced_folds(vocal_folds)),
        Phonet::Vowel { .. } => phonet.with_voicing(VocalFolds::Voiceless),
    }
}

/// Spirantization as a rule on phonets. A plosive becomes a fricative, and an
/// alveolar plosive becomes a dental one on the way. Every other sound is left
/// as it is.
pub open spec fn spec_spirantized_phonet(phonet: Phonet) -> Phonet {
    match phonet {
        Phonet::Consonant { vocal_folds, place, manner: Manner::Plosive, airstream } => {
            Phonet::Consonant {
                vocal_folds,
                place: if place == Place::Alveolar {
                    Place::Dental
                } else {
                    place
                },
                manner: Manner::Fricative,
                airstream,
            }
        },
        other => other,
    }
}

/// Gives the voiced equivalent of a sound.
pub fn voiced_phonet(phonet: Phonet) -> (r: Phonet)
    ensures
        r == spec_voiced_phonet(phonet),
{
    match phonet {
        Phonet::Consonant { vocal_folds: VocalFolds::VoicelessAspirated, place, manner, airstream } => {
            Phonet::Consonant { vocal_folds: VocalFolds::VoicedAspirated, place, manner, airstream }
        },
        Phonet::Consonant { vocal_folds: VocalFolds::Voiceless, place, manner, airstream } => {
            Phonet::Consonant { vocal_folds: VocalFolds::Voiced, place, manner, airstream }
        },
        Phonet::Vowel { height, backness, rounding, vocal_folds: _ } => {
            Phonet::Vowel { height, backness, rounding, vocal_folds: VocalFolds::Voiced }
        },
        other => other,
    }
}

/// Gives the voiceless equivalent of a sound.
pub fn devoiced_phonet(phonet: Phonet) -> (r: Phonet)
    ensures
        r == spec_devoiced_phonet(phonet),
{
    match phonet {
        Phonet::Consonant { vocal_folds: VocalFolds::Voiced, place, manner, airstream } => {
            Phonet::Consonant { vocal_folds: VocalFolds::Voiceless, place, manner, airstream }
        },
        Phonet::Consonant { vocal_folds: VocalFolds::VoicedAspirated, place, manner, airstream } => {
            Phonet::Consonant { vocal_folds: VocalFolds::VoicelessAspirated, place, manner, airstream }
        },
        Phonet::Vowel { height, backness, rounding, vocal_folds: _ } => {
            Phonet::Vowel { height, backness, rounding, vocal_folds: VocalFolds::Voiceless }
        },
        other => other,
    }
}

/// Turns a stop into the corresponding fricative.
pub fn spirantized_phonet(phonet: Phonet) -> (r: Phonet)
    ensures
        r == spec_spirantized_phonet(phonet),
{
    match phonet {
        Phonet::Consonant { vocal_folds, place: Place::Alveolar, manner: Manner::Plosive, airstream } => {
            Phonet::Consonant { vocal_folds, place: Place::Dental, manner: Manner::Fricative, airstream }
        },
        Phonet::Consonant { vocal_folds, place, manner: Manner::Plosive, airstream } => {
            Phonet::Consonant { vocal_folds, place, manner: Manner::Fricative, airstream }
        },
        other => other,
    }
}

/// Voicing twice is voicing once, and so is devoicing.
pub proof fn lemma_voicing_idempotent(p: Phonet)
    ensures
        spec_voiced_phonet(spec_voiced_phonet(p)) == spec_voiced_phonet(p),
        spec_devoiced_phonet(spec_devoiced_phonet(p)) == spec_devoiced_phonet(p),
{
}

/// The rule applied last decides: devoicing a voiced sound gives what
/// devoicing the sound itself gives, and the other way round.
pub proof fn lemma_voicing_last_rule_wins(p: Phonet)
    ensures
        spec_devoiced_phonet(spec_voiced_phonet(p)) == spec_devoiced_phonet(p),
        spec_voiced_phonet(spec_devoiced_phonet(p)) == spec_voiced_phonet(p),
{
}

/// A spirantized sound is a fixed point of spirantization.
pub proof fn lemma_spirantization_idempotent(p: Phonet)
    ensures
        spec_spirantized_phonet(spec_spirantized_phonet(p)) == spec_spirantized_phonet(p),
{
}

} // verus!
