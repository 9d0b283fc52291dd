//! The feature domains: one closed enumeration per phonological dimension.
//!
//! Every domain has a set of marked values and exactly one unmarked value,
//! which stands for "unspecified: any value of this dimension". Each domain
//! publishes the ordered list of its marked values as a constant; the unmarked
//! value is never a member of that list.

use vstd::prelude::*;

verus! {

/// The state of the vocal folds while the sound is made.
#[derive(Clone, Copy, PartialEq, Eq, Structural, Debug, Hash)]
pub enum VocalFolds {
    Voiced,
    Voiceless,
    VoicedAspirated,
    VoicelessAspirated,
    CreakyVoiced,
    UnmarkedVocalFolds,
}

/// The marked vocal fold states, in their fixed order: the voiceless state
/// comes first.
pub const VOCAL_FOLD_STATES: [VocalFolds; 5] = [
    VocalFolds::Voiceless,
    VocalFolds::Voiced,
    VocalFolds::VoicedAspirated,
    VocalFolds::VoicelessAspirated,
    VocalFolds::CreakyVoiced,
];

impl VocalFolds {
    /// Whether this is a value of the dimension rather than the wildcard.
    pub open spec fn is_marked(self) -> bool {
        self != VocalFolds::UnmarkedVocalFolds
    }

    /// The values that `self` stands for: every marked value if `self` is
    /// unmarked, and `self` alone otherwise.
    pub open spec fn spec_candidates(self) -> Seq<VocalFolds> {
        if self == VocalFolds::UnmarkedVocalFolds {
            VOCAL_FOLD_STATES@
        } else {
            seq![self]
        }
    }

    /// What two values have in common: the value itself if they agree, the
    /// unmarked value if they differ.
    pub open spec fn spec_common(self, other: VocalFolds) -> VocalFolds {
        if self == other {
            self
        } else {
            VocalFolds::UnmarkedVocalFolds
        }
    }

    /// Whether `other` is one of the values that `self` stands for.
    pub open spec fn admits(self, other: VocalFolds) -> bool {
        if self == VocalFolds::UnmarkedVocalFolds {
            other.is_marked()
        } else {
            other == self
        }
    }

    /// Lists the values that `self` stands for, in the domain's fixed order.
    pub fn candidates(self) -> (r: Vec<VocalFolds>)
        ensures
            r@ == self.spec_candidates(),
    {
        let mut r: Vec<VocalFolds> = Vec::new();
        if self == VocalFolds::UnmarkedVocalFolds {
            for i in 0..5usize
                invariant
                    r@ == VOCAL_FOLD_STATES@.take(i as int),
            {
                r.push(VOCAL_FOLD_STATES[i]);
            }
        } else {
            r.push(self);
        }
        r
    }

    /// The constant `VOCAL_FOLD_STATES` lists every marked value exactly once and
    /// never the unmarked value.
    pub proof fn lemma_states()
        ensures
            VOCAL_FOLD_STATES@.len() == 5,
            VOCAL_FOLD_STATES@.no_duplicates(),
            !VOCAL_FOLD_STATES@.contains(VocalFolds::UnmarkedVocalFolds),
            forall|x: VocalFolds| x.is_marked() <==> VOCAL_FOLD_STATES@.contains(x),
    {
    }

    /// The values that a value stands for are exactly the ones it admits.
    pub proof fn lemma_candidates(self, other: VocalFolds)
        ensures
            self.spec_candidates().contains(other) <==> self.admits(other),
    {
        if self.is_marked() {
            assert(seq![self][0] == self);
        } else {
            VocalFolds::lemma_states();
        }
    }
}

/// The place of articulation, in the left-to-right order of the chart's columns.
#[derive(Clone, Copy, PartialEq, Eq, Structural, Debug, Hash)]
pub enum Place {
    Bilabial,
    LabioDental,
    Dental,
    Alveolar,
    PostAlveolar,
    Retroflex,
    Palatal,
    Velar,
    Uvular,
    Pharyngeal,
    Glottal,
    Epiglottal,
    LabialVelar,
    LabialPalatal,
    AlveoloPalatal,
    PalatoAlveolar,
    UnmarkedPlace,
}

/// The marked places of articulation, in their fixed order.
pub const PLACE_STATES: [Place; 16] = [
    Place::Bilabial, Place::LabioDental, Place::Dental, Place::Alveolar, Place::PostAlveolar,
    Place::Retroflex, Place::Palatal, Place::Velar, Place::Uvular, Place::Pharyngeal,
    Place::Glottal, Place::Epiglottal, Place::LabialVelar, Place::LabialPalatal,
    Place::AlveoloPalatal, Place::PalatoAlveolar,
];

impl Place {
    /// Whether this is a value of the dimension rather than the wildcard.
    pub open spec fn is_marked(self) -> bool {
        self != Place::UnmarkedPlace
    }

    /// The position of a marked value in `PLACE_STATES`, and the length of that
    /// list for the unmarked value.
    pub open spec fn ordinal(self) -> int {
        match self {
            Place::Bilabial => 0,
            Place::LabioDental => 1,
            Place::Dental => 2,
            Place::Alveolar => 3,
            Place::PostAlveolar => 4,
            Place::Retroflex => 5,
            Place::Palatal => 6,
            Place::Velar => 7,
            Place::Uvular => 8,
            Place::Pharyngeal => 9,
            Place::Glottal => 10,
            Place::Epiglottal => 11,
            Place::LabialVelar => 12,
            Place::LabialPalatal => 13,
            Place::AlveoloPalatal => 14,
            Place::PalatoAlveolar => 15,
            Place::UnmarkedPlace => 16,
        }
    }

    /// The values that `self` stands for: every marked value if `self` is
    /// unmarked, and `self` alone otherwise.
    pub open spec fn spec_candidates(self) -> Seq<Place> {
        if self == Place::UnmarkedPlace {
            PLACE_STATES@
        } else {
            seq![self]
        }
    }

    /// What two values have in common: the value itself if they agree, the
    /// unmarked value if they differ.
    pub open spec fn spec_common(self, other: Place) -> Place {
        if self == other {
            self
        } else {
            Place::UnmarkedPlace
        }
    }

    /// Whether `other` is one of the values that `self` stands for.
    pub open spec fn admits(self, other: Place) -> bool {
        if self == Place::UnmarkedPlace {
            other.is_marked()
        } else {
            other == self
        }
    }

    /// Lists the values that `self` stands for, in the domain's fixed order.
    pub fn candidates(self) -> (r: Vec<Place>)
        ensures
            r@ == self.spec_candidates(),
    {
        let mut r: Vec<Place> = Vec::new();
        if self == Place::UnmarkedPlace {
            for i in 0..16usize
                invariant
                    r@ == PLACE_STATES@.take(i as int),
            {
                r.push(PLACE_STATES[i]);
            }
        } else {
            r.push(self);
        }
        r
    }

    /// The constant `PLACE_STATES` lists every marked value exactly once, at the
    /// position that `ordinal` gives, and never the unmarked value.
    pub proof fn lemma_states()
        ensures
            PLACE_STATES@.len() == 16,
            PLACE_STATES@.no_duplicates(),
            !PLACE_STATES@.contains(Place::UnmarkedPlace),
            forall|x: Place| x.is_marked() <==> PLACE_STATES@.contains(x),
            forall|x: Place|
                x.is_marked() ==> 0 <= x.ordinal() < 16 && PLACE_STATES@[x.ordinal()] == x,
            forall|i: int| 0 <= i < 16 ==> (#[trigger] PLACE_STATES@[i]).ordinal() == i,
    {
    }

    /// The values that a value stands for are exactly the ones it admits.
    pub proof fn lemma_candidates(self, other: Place)
        ensures
            self.spec_candidates().contains(other) <==> self.admits(other),
    {
        if self.is_marked() {
            assert(seq![self][0] == self);
        } else {
            Place::lemma_states();
        }
    }
}

/// The manner of articulation. `Lateral` exists for the lateral click.
#[derive(Clone, Copy, PartialEq, Eq, Structural, Debug, Hash)]
pub enum Manner {
    Plosive,
    Nasal,
    Trill,
    TapOrFlap,
    Approximant,
    Fricative,
    Affricate,
    LateralFricative,
    LateralApproximant,
    LateralFlap,
    Lateral,
    UnmarkedManner,
}

/// The marked manners of articulation, in their fixed order.
pub const MANNER_STATES: [Manner; 11] = [
    Manner::Plosive, Manner::Nasal, Manner::Trill, Manner::TapOrFlap, Manner::Approximant,
    Manner::Fricative, Manner::Affricate, Manner::LateralFricative, Manner::LateralApproximant,
    Manner::LateralFlap, Manner::Lateral,
];

impl Manner {
    /// Whether this is a value of the dimension rather than the wildcard.
    pub open spec fn is_marked(self) -> bool {
        self != Manner::UnmarkedManner
    }

    /// The values that `self` stands for: every marked value if `self` is
    /// unmarked, and `self` alone otherwise.
    pub open spec fn spec_candidates(self) -> Seq<Manner> {
        if self == Manner::UnmarkedManner {
            MANNER_STATES@
        } else {
            seq![self]
        }
    }

    /// What two values have in common: the value itself if they agree, the
    /// unmarked value if they differ.
    pub open spec fn spec_common(self, other: Manner) -> Manner {
        if self == other {
            self
        } else {
            Manner::UnmarkedManner
        }
    }

    /// Whether `other` is one of the values that `self` stands for.
    pub open spec fn admits(self, other: Manner) -> bool {
        if self == Manner::UnmarkedManner {
            other.is_marked()
        } else {
            other == self
        }
    }

    /// Lists the values that `self` stands for, in the domain's fixed order.
    pub fn candidates(self) -> (r: Vec<Manner>)
        ensures
            r@ == self.spec_candidates(),
    {
        let mut r: Vec<Manner> = Vec::new();
        if self == Manner::UnmarkedManner {
            for i in 0..11usize
                invariant
                    r@ == MANNER_STATES@.take(i as int),
            {
                r.push(MANNER_STATES[i]);
            }
        } else {
            r.push(self);
        }
        r
    }

    /// The constant `MANNER_STATES` lists every marked value exactly once and
    /// never the unmarked value.
    pub proof fn lemma_states()
        ensures
            MANNER_STATES@.len() == 11,
            MANNER_STATES@.no_duplicates(),
            !MANNER_STATES@.contains(Manner::UnmarkedManner),
            forall|x: Manner| x.is_marked() <==> MANNER_STATES@.contains(x),
    {
    }

    /// The values that a value stands for are exactly the ones it admits.
    pub proof fn lemma_candidates(self, other: Manner)
        ensures
            self.spec_candidates().contains(other) <==> self.admits(other),
    {
        if self.is_marked() {
            assert(seq![self][0] == self);
        } else {
            Manner::lemma_states();
        }
    }
}

/// The airstream mechanism.
#[derive(Clone, Copy, PartialEq, Eq, Structural, Debug, Hash)]
pub enum Airstream {
    PulmonicEgressive,
    Click,
    Implosive,
    UnmarkedAirstream,
}

/// The marked airstream mechanisms, in their fixed order.
pub const AIRSTREAM_STATES: [Airstream; 3] = [
    Airstream::PulmonicEgressive, Airstream::Click, Airstream::Implosive,
];

impl Airstream {
    /// Whether this is a value of the dimension rather than the wildcard.
    pub open spec fn is_marked(self) -> bool {
        self != Airstream::UnmarkedAirstream
    }

    /// The values that `self` stands for: every marked value if `self` is
    /// unmarked, and `self` alone otherwise.
    pub open spec fn spec_candidates(self) -> Seq<Airstream> {
        if self == Airstream::UnmarkedAirstream {
            AIRSTREAM_STATES@
        } else {
            seq![self]
        }
    }

    /// What two values have in common: the value itself if they agree, the
    /// unmarked value if they differ.
    pub open spec fn spec_common(self, other: Airstream) -> Airstream {
        if self == other {
            self
        } else {
            Airstream::UnmarkedAirstream
        }
    }

    /// Whether `other` is one of the values that `self` stands for.
    pub open spec fn admits(self, other: Airstream) -> bool {
        if self == Airstream::UnmarkedAirstream {
            other.is_marked()
        } else {
            other == self
        }
    }

    /// Lists the values that `self` stands for, in the domain's fixed order.
    pub fn candidates(self) -> (r: Vec<Airstream>)
        ensures
            r@ == self.spec_candidates(),
    {
        let mut r: Vec<Airstream> = Vec::new();
        if self == Airstream::UnmarkedAirstream {
            for i in 0..3usize
                invariant
                    r@ == AIRSTREAM_STATES@.take(i as int),
            {
                r.push(AIRSTREAM_STATES[i]);
            }
        } else {
            r.push(self);
        }
        r
    }

    /// The constant `AIRSTREAM_STATES` lists every marked value exactly once and
    /// never the unmarked value.
    pub proof fn lemma_states()
        ensures
            AIRSTREAM_STATES@.len() == 3,
            AIRSTREAM_STATES@.no_duplicates(),
            !AIRSTREAM_STATES@.contains(Airstream::UnmarkedAirstream),
            forall|x: Airstream| x.is_marked() <==> AIRSTREAM_STATES@.contains(x),
    {
    }

    /// The values that a value stands for are exactly the ones it admits.
    pub proof fn lemma_candidates(self, other: Airstream)
        ensures
            self.spec_candidates().contains(other) <==> self.admits(other),
    {
        if self.is_marked() {
            assert(seq![self][0] == self);
        } else {
            Airstream::lemma_states();
        }
    }
}

/// Vowel height, from close to open.
#[derive(Clone, Copy, PartialEq, Eq, Structural, Debug, Hash)]
pub enum Height {
    Close,
    NearClose,
    CloseMid,
    Mid,
    OpenMid,
    NearOpen,
    Open,
    UnmarkedHeight,
}

/// The marked vowel heights, in their fixed order.
pub const HEIGHT_STATES: [Height; 7] = [
    Height::Close, Height::NearClose, Height::CloseMid, Height::Mid, Height::OpenMid,
    Height::NearOpen, Height::Open,
];

impl Height {
    /// Whether this is a value of the dimension rather than the wildcard.
    pub open spec fn is_marked(self) -> bool {
        self != Height::UnmarkedHeight
    }

    /// The values that `self` stands for: every marked value if `self` is
    /// unmarked, and `self` alone otherwise.
    pub open spec fn spec_candidates(self) -> Seq<Height> {
        if self == Height::UnmarkedHeight {
            HEIGHT_STATES@
        } else {
            seq![self]
        }
    }

    /// What two values have in common: the value itself if they agree, the
    /// unmarked value if they differ.
    pub open spec fn spec_common(self, other: Height) -> Height {
        if self == other {
            self
        } else {
            Height::UnmarkedHeight
        }
    }

    /// Whether `other` is one of the values that `self` stands for.
    pub open spec fn admits(self, other: Height) -> bool {
        if self == Height::UnmarkedHeight {
            other.is_marked()
        } else {
            other == self
        }
    }

    /// Lists the values that `self` stands for, in the domain's fixed order.
    pub fn candidates(self) -> (r: Vec<Height>)
        ensures
            r@ == self.spec_candidates(),
    {
        let mut r: Vec<Height> = Vec::new();
        if self == Height::UnmarkedHeight {
            for i in 0..7usize
                invariant
                    r@ == HEIGHT_STATES@.take(i as int),
            {
                r.push(HEIGHT_STATES[i]);
            }
        } else {
            r.push(self);
        }
        r
    }

    /// The constant `HEIGHT_STATES` lists every marked value exactly once and
    /// never the unmarked value.
    pub proof fn lemma_states()
        ensures
            HEIGHT_STATES@.len() == 7,
            HEIGHT_STATES@.no_duplicates(),
            !HEIGHT_STATES@.contains(Height::UnmarkedHeight),
            forall|x: Height| x.is_marked() <==> HEIGHT_STATES@.contains(x),
    {
    }

    /// The values that a value stands for are exactly the ones it admits.
    pub proof fn lemma_candidates(self, other: Height)
        ensures
            self.spec_candidates().contains(other) <==> self.admits(other),
    {
        if self.is_marked() {
            assert(seq![self][0] == self);
        } else {
            Height::lemma_states();
        }
    }
}

/// Vowel backness, from front to back.
#[derive(Clone, Copy, PartialEq, Eq, Structural, Debug, Hash)]
pub enum Backness {
    Front,
    Central,
    Back,
    UnmarkedBackness,
}

/// The marked degrees of backness, in their fixed order.
pub const BACKNESS_STATES: [Backness; 3] = [
    Backness::Front, Backness::Central, Backness::Back,
];

impl Backness {
    /// Whether this is a value of the dimension rather than the wildcard.
    pub open spec fn is_marked(self) -> bool {
        self != Backness::UnmarkedBackness
    }

    /// The values that `self` stands for: every marked value if `self` is
    /// unmarked, and `self` alone otherwise.
    pub open spec fn spec_candidates(self) -> Seq<Backness> {
        if self == Backness::UnmarkedBackness {
            BACKNESS_STATES@
        } else {
            seq![self]
        }
    }

    /// What two values have in common: the value itself if they agree, the
    /// unmarked value if they differ.
    pub open spec fn spec_common(self, other: Backness) -> Backness {
        if self == other {
            self
        } else {
            Backness::UnmarkedBackness
        }
    }

    /// Whether `other` is one of the values that `self` stands for.
    pub open spec fn admits(self, other: Backness) -> bool {
        if self == Backness::UnmarkedBackness {
            other.is_marked()
        } else {
            other == self
        }
    }

    /// Lists the values that `self` stands for, in the domain's fixed order.
    pub fn candidates(self) -> (r: Vec<Backness>)
        ensures
            r@ == self.spec_candidates(),
    {
        let mut r: Vec<Backness> = Vec::new();
        if self == Backness::UnmarkedBackness {
            for i in 0..3usize
                invariant
                    r@ == BACKNESS_STATES@.take(i as int),
            {
                r.push(BACKNESS_STATES[i]);
            }
        } else {
            r.push(self);
        }
        r
    }

    /// The constant `BACKNESS_STATES` lists every marked value exactly once and
    /// never the unmarked value.
    pub proof fn lemma_states()
        ensures
            BACKNESS_STATES@.len() == 3,
            BACKNESS_STATES@.no_duplicates(),
            !BACKNESS_STATES@.contains(Backness::UnmarkedBackness),
            forall|x: Backness| x.is_marked() <==> BACKNESS_STATES@.contains(x),
    {
    }

    /// The values that a value stands for are exactly the ones it admits.
    pub proof fn lemma_candidates(self, other: Backness)
        ensures
            self.spec_candidates().contains(other) <==> self.admits(other),
    {
        if self.is_marked() {
            assert(seq![self][0] == self);
        } else {
            Backness::lemma_states();
        }
    }
}

/// Lip rounding of a vowel.
#[derive(Clone, Copy, PartialEq, Eq, Structural, Debug, Hash)]
pub enum Rounding {
    Rounded,
    Unrounded,
    UnmarkedRounding,
}

/// The marked roundings, in their fixed order.
pub const ROUNDING_STATES: [Rounding; 2] = [
    Rounding::Rounded, Rounding::Unrounded,
];

impl Rounding {
    /// Whether this is a value of the dimension rather than the wildcard.
    pub open spec fn is_marked(self) -> bool {
        self != Rounding::UnmarkedRounding
    }

    /// The values that `self` stands for: every marked value if `self` is
    /// unmarked, and `self` alone otherwise.
    pub open spec fn spec_candidates(self) -> Seq<Rounding> {
        if self == Rounding::UnmarkedRounding {
            ROUNDING_STATES@
        } else {
            seq![self]
        }
    }

    /// What two values have in common: the value itself if they agree, the
    /// unmarked value if they differ.
    pub open spec fn spec_common(self, other: Rounding) -> Rounding {
        if self == other {
            self
        } else {
            Rounding::UnmarkedRounding
        }
    }

    /// Whether `other` is one of the values that `self` stands for.
    pub open spec fn admits(self, other: Rounding) -> bool {
        if self == Rounding::UnmarkedRounding {
            other.is_marked()
        } else {
            other == self
        }
    }

    /// Lists the values that `self` stands for, in the domain's fixed order.
    pub fn candidates(self) -> (r: Vec<Rounding>)
        ensures
            r@ == self.spec_candidates(),
    {
        let mut r: Vec<Rounding> = Vec::new();
        if self == Rounding::UnmarkedRounding {
            for i in 0..2usize
                invariant
                    r@ == ROUNDING_STATES@.take(i as int),
            {
                r.push(ROUNDING_STATES[i]);
            }
        } else {
            r.push(self);
        }
        r
    }

    /// The constant `ROUNDING_STATES` lists every marked value exactly once and
    /// never the unmarked value.
    pub proof fn lemma_states()
        ensures
            ROUNDING_STATES@.len() == 2,
            ROUNDING_STATES@.no_duplicates(),
            !ROUNDING_STATES@.contains(Rounding::UnmarkedRounding),
            forall|x: Rounding| x.is_marked() <==> ROUNDING_STATES@.contains(x),
    {
    }

    /// The values that a value stands for are exactly the ones it admits.
    pub proof fn lemma_candidates(self, other: Rounding)
        ensures
            self.spec_candidates().contains(other) <==> self.admits(other),
    {
        if self.is_marked() {
            assert(seq![self][0] == self);
        } else {
            Rounding::lemma_states();
        }
    }
}

/// The place one step further back in the vocal tract: the next place in the
/// fixed order, from bilabial up to glottal. The glottal place and every place
/// listed after it stay where they are, and so does the unmarked value.
pub open spec fn spec_retracted_place(place: Place) -> Place {
    if place.ordinal() < Place::Glottal.ordinal() {
        PLACE_STATES@[place.ordinal() + 1]
    } else {
        place
    }
}

/// Moves a place of articulation one step back.
pub fn retracted_place(place: Place) -> (r: Place)
    ensures
        r == spec_retracted_place(place),
{
    match place {
        Place::Bilabial => Place::LabioDental,
        Place::LabioDental => Place::Dental,
        Place::Dental => Place::Alveolar,
        Place::Alveolar => Place::PostAlveolar,
        Place::PostAlveolar => Place::Retroflex,
        Place::Retroflex => Place::Palatal,
        Place::Palatal => Place::Velar,
        Place::Velar => Place::Uvular,
        Place::Uvular => Place::Pharyngeal,
        Place::Pharyngeal => Place::Glottal,
        same => same,
    }
}

} // verus!
