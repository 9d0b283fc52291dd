//! The algebra of partly specified sounds: the common description of two
//! phonets, and the list of all sounds that a description stands for.

use crate::features::{Airstream, Backness, Height, Manner, Place, Rounding, VocalFolds};
use crate::phonet::Phonet;
use crate::product::{
    lemma_nested_position_carry,
    lemma_product4_contains,
    lemma_product4_index,
    lemma_product4_no_duplicates,
    nested_position,
    product4,
};
use vstd::prelude::*;

verus! {

/// The common description of two sounds. Two sounds of one variant keep each
/// feature on which they agree and lose, to the unmarked value, each feature on
/// which they differ. A consonant and a vowel, in either order, have only the
/// voicing to share: the result is a vowel whose other features are unmarked.
pub open spec fn spec_unmark_differences(phonet1: Phonet, phonet2: Phonet) -> Phonet {
    match (phonet1, phonet2) {
        (
            Phonet::Consonant { vocal_folds: voice1, place: place1, manner: manner1, airstream: airstream1 },
            Phonet::Consonant { vocal_folds: voice2, place: place2, manner: manner2, airstream: airstream2 },
        ) => Phonet::Consonant {
            vocal_folds: voice1.spec_common(voice2),
            place: place1.spec_common(place2),
            manner: manner1.spec_common(manner2),
            airstream: airstream1.spec_common(airstream2),
        },
        (
            Phonet::Vowel { height: height1, backness: backness1, rounding: rounding1, vocal_folds: voice1 },
            Phonet::Vowel { height: height2, backness: backness2, rounding: rounding2, vocal_folds: voice2 },
        ) => Phonet::Vowel {
            height: height1.spec_common(height2),
            backness: backness1.spec_common(backness2),
            rounding: rounding1.spec_common(rounding2),
            vocal_folds: voice1.spec_common(voice2),
        },
        _ => Phonet::Vowel {
            height: Height::UnmarkedHeight,
            backness: Backness::UnmarkedBackness,
            rounding: Rounding::UnmarkedRounding,
            vocal_folds: phonet1.voicing().spec_common(phonet2.voicing()),
        },
    }
}

/// Whether `other` is one of the sounds that the description `self` stands
/// for: a sound of the same variant in which every field is a value that the
/// description's field admits.
pub open spec fn denotes(description: Phonet, other: Phonet) -> bool {
    match (description, other) {
        (
            Phonet::Consonant { vocal_folds: voice1, place: place1, manner: manner1, airstream: airstream1 },
            Phonet::Consonant { vocal_folds: voice2, place: place2, manner: manner2, airstream: airstream2 },
        ) => {
            &&& voice1.admits(voice2)
            &&& place1.admits(place2)
            &&& manner1.admits(manner2)
            &&& airstream1.admits(airstream2)
        },
        (
            Phonet::Vowel { height: height1, backness: backness1, rounding: rounding1, vocal_folds: voice1 },
            Phonet::Vowel { height: height2, backness: backness2, rounding: rounding2, vocal_folds: voice2 },
        ) => {
            &&& height1.admits(height2)
            &&& backness1.admits(backness2)
            &&& rounding1.admits(rounding2)
            &&& voice1.admits(voice2)
        },
        _ => false,
    }
}

/// The consonant with the given features.
pub open spec fn consonant_of() -> spec_fn(Place, VocalFolds, Manner, Airstream) -> Phonet {
    |place: Place, vocal_folds: VocalFolds, manner: Manner, airstream: Airstream|
        Phonet::Consonant { vocal_folds, place, manner, airstream }
}

/// The vowel with the given features.
pub open spec fn vowel_of() -> spec_fn(Height, Backness, Rounding, VocalFolds) -> Phonet {
    |height: Height, backness: Backness, rounding: Rounding, vocal_folds: VocalFolds|
        Phonet::Vowel { height, backness, rounding, vocal_folds }
}

/// The sounds that a description stands for, as a list. Each field
/// contributes the values it stands for, and the list is the Cartesian product
/// of the four contributions, in the order of nested iteration: for a
/// consonant the place varies slowest, then the voicing, the manner and the
/// airstream; for a vowel the height, then the backness, the rounding and the
/// voicing.
pub open spec fn spec_generate_from_unmarked(phonet: Phonet) -> Seq<Phonet> {
    match phonet {
        Phonet::Consonant { vocal_folds, place, manner, airstream } => product4(
            place.spec_candidates(),
            vocal_folds.spec_candidates(),
            manner.spec_candidates(),
            airstream.spec_candidates(),
            consonant_of(),
        ),
        Phonet::Vowel { height, backness, rounding, vocal_folds } => product4(
            height.spec_candidates(),
            backness.spec_candidates(),
            rounding.spec_candidates(),
            vocal_folds.spec_candidates(),
            vowel_of(),
        ),
    }
}

/// Finds what two sounds have in common.
pub fn unmark_differences(phonet1: Phonet, phonet2: Phonet) -> (r: Phonet)
    ensures
        r == spec_unmark_differences(phonet1, phonet2),
    decreases
            (if phonet1 is Consonant && phonet2 is Vowel {
                1int
            } else {
                0int
            }),
{
    match (phonet1, phonet2) {
        (
            Phonet::Consonant { vocal_folds: voice1, place: place1, manner: manner1, airstream: airstream1 },
            Phonet::Consonant { vocal_folds: voice2, place: place2, manner: manner2, airstream: airstream2 },
        ) => {
            let voice3 = if voice1 == voice2 {
                voice1
            } else {
                VocalFolds::UnmarkedVocalFolds
            };
            let place3 = if place1 == place2 {
                place1
            } else {
                Place::UnmarkedPlace
            };
            let manner3 = if manner1 == manner2 {
                manner1
            } else {
                Manner::UnmarkedManner
            };
            let airstream3 = if airstream1 == airstream2 {
                airstream1
            } else {
                Airstream::UnmarkedAirstream
            };
            Phonet::Consonant { vocal_folds: voice3, place: place3, manner: manner3, airstream: airstream3 }
        },
        (
            Phonet::Vowel { height: height1, backness: backness1, rounding: rounding1, vocal_folds: voice1 },
            Phonet::Vowel { height: height2, backness: backness2, rounding: rounding2, vocal_folds: voice2 },
        ) => {
            let voice3 = if voice1 == voice2 {
                voice1
            } else {
                VocalFolds::UnmarkedVocalFolds
            };
            let height3 = if height1 == height2 {
                height1
            } else {
                Height::UnmarkedHeight
            };
            let backness3 = if backness1 == backness2 {
                backness1
            } else {
                Backness::UnmarkedBackness
            };
            let rounding3 = if rounding1 == rounding2 {
                rounding1
            } else {
                Rounding::UnmarkedRounding
            };
            Phonet::Vowel { height: height3, backness: backness3, rounding: rounding3, vocal_folds: voice3 }
        },
        (Phonet::Vowel { vocal_folds: voice1, .. }, Phonet::Consonant { vocal_folds: voice2, .. }) => {
            let voice3 = if voice1 == voice2 {
                voice1
            } else {
                VocalFolds::UnmarkedVocalFolds
            };
            Phonet::Vowel {
                height: Height::UnmarkedHeight,
                backness: Backness::UnmarkedBackness,
                rounding: Rounding::UnmarkedRounding,
                vocal_folds: voice3,
            }
        },
        (c @ Phonet::Consonant { .. }, v @ Phonet::Vowel { .. }) => {
            // The same case with the arguments in the other order.
            unmark_differences(v, c)
        },
    }
}

/// Lists the consonants that combine one value from each list, the places
/// varying slowest and the airstreams fastest.
#[verifier::loop_isolation(false)]
fn consonants_of(
    places: &Vec<Place>,
    voicings: &Vec<VocalFolds>,
    manners: &Vec<Manner>,
    airstreams: &Vec<Airstream>,
) -> (possibilities: Vec<Phonet>)
    ensures
        possibilities@ == product4(
            places@,
            voicings@,
            manners@,
            airstreams@,
            consonant_of(),
        ),
{
    let ghost all = product4(places@, voicings@, manners@, airstreams@, consonant_of());
    let ghost np = places@.len() as int;
    let ghost nv = voicings@.len() as int;
    let ghost nm = manners@.len() as int;
    let ghost na = airstreams@.len() as int;
    let mut possibilities: Vec<Phonet> = Vec::new();
    proof {
        lemma_nested_position_carry(0, 0, 0, 0, np, nv, nm, na);
    }
    for p in 0..places.len()
        invariant
            possibilities@ == all.take(nested_position(p as int, 0, 0, 0, nv, nm, na)),
    {
        for v in 0..voicings.len()
            invariant
                possibilities@ == all.take(nested_position(p as int, v as int, 0, 0, nv, nm, na)),
        {
            for m in 0..manners.len()
                invariant
                    possibilities@ == all.take(
                        nested_position(p as int, v as int, m as int, 0, nv, nm, na),
                    ),
            {
                for a in 0..airstreams.len()
                    invariant
                        possibilities@ == all.take(
                            nested_position(p as int, v as int, m as int, a as int, nv, nm, na),
                        ),
                {
                    proof {
                        lemma_product4_index(
                            places@,
                            voicings@,
                            manners@,
                            airstreams@,
                            consonant_of(),
                            p as int,
                            v as int,
                            m as int,
                            a as int,
                        );
                        lemma_nested_position_carry(p as int, v as int, m as int, a as int, np, nv, nm, na);
                    }
                    let ghost here = nested_position(p as int, v as int, m as int, a as int, nv, nm, na);
                    possibilities.push(
                        Phonet::Consonant {
                            vocal_folds: voicings[v],
                            place: places[p],
                            manner: manners[m],
                            airstream: airstreams[a],
                        },
                    );
                    assert(possibilities@ =~= all.take(here + 1));
                }
                proof {
                    lemma_nested_position_carry(p as int, v as int, m as int, 0, np, nv, nm, na);
                }
            }
            proof {
                lemma_nested_position_carry(p as int, v as int, 0, 0, np, nv, nm, na);
            }
        }
        proof {
            lemma_nested_position_carry(p as int, 0, 0, 0, np, nv, nm, na);
        }
    }
    proof {
        lemma_nested_position_carry(0, 0, 0, 0, np, nv, nm, na);
    }
    possibilities
}

/// Lists the vowels that combine one value from each list, the heights
/// varying slowest and the backnesses fastest.
#[verifier::loop_isolation(false)]
fn vowels_of(
    heights: &Vec<Height>,
    backnesses: &Vec<Backness>,
    roundings: &Vec<Rounding>,
    voicings: &Vec<VocalFolds>,
) -> (possibilities: Vec<Phonet>)
    ensures
        possibilities@ == product4(
            heights@,
            backnesses@,
            roundings@,
            voicings@,
            vowel_of(),
        ),
{
    let ghost all = product4(heights@, backnesses@, roundings@, voicings@, vowel_of());
    let ghost nh = heights@.len() as int;
    let ghost nb = backnesses@.len() as int;
    let ghost nr = roundings@.len() as int;
    let ghost nv = voicings@.len() as int;
    let mut possibilities: Vec<Phonet> = Vec::new();
    proof {
        lemma_nested_position_carry(0, 0, 0, 0, nh, nb, nr, nv);
    }
    for h in 0..heights.len()
        invariant
            possibilities@ == all.take(nested_position(h as int, 0, 0, 0, nb, nr, nv)),
    {
        for b in 0..backnesses.len()
            invariant
                possibilities@ == all.take(nested_position(h as int, b as int, 0, 0, nb, nr, nv)),
        {
            for r in 0..roundings.len()
                invariant
                    possibilities@ == all.take(
                        nested_position(h as int, b as int, r as int, 0, nb, nr, nv),
                    ),
            {
                for v in 0..voicings.len()
                    invariant
                        possibilities@ == all.take(
                            nested_position(h as int, b as int, r as int, v as int, nb, nr, nv),
                        ),
                {
                    proof {
                        lemma_product4_index(
                            heights@,
                            backnesses@,
                            roundings@,
                            voicings@,
                            vowel_of(),
                            h as int,
                            b as int,
                            r as int,
                            v as int,
                        );
                        lemma_nested_position_carry(h as int, b as int, r as int, v as int, nh, nb, nr, nv);
                    }
                    let ghost here = nested_position(h as int, b as int, r as int, v as int, nb, nr, nv);
                    possibilities.push(
                        Phonet::Vowel {
                            height: heights[h],
                            backness: backnesses[b],
                            rounding: roundings[r],
                            vocal_folds: voicings[v],
                        },
                    );
                    assert(possibilities@ =~= all.take(here + 1));
                }
                proof {
                    lemma_nested_position_carry(h as int, b as int, r as int, 0, nh, nb, nr, nv);
                }
            }
            proof {
                lemma_nested_position_carry(h as int, b as int, 0, 0, nh, nb, nr, nv);
            }
        }
        proof {
            lemma_nested_position_carry(h as int, 0, 0, 0, nh, nb, nr, nv);
        }
    }
    proof {
        lemma_nested_position_carry(0, 0, 0, 0, nh, nb, nr, nv);
    }
    possibilities
}

/// The consonant of which nothing is known.
pub open spec fn unmarked_consonant() -> Phonet {
    Phonet::Consonant {
        vocal_folds: VocalFolds::UnmarkedVocalFolds,
        place: Place::UnmarkedPlace,
        manner: Manner::UnmarkedManner,
        airstream: Airstream::UnmarkedAirstream,
    }
}

/// The vowel of which nothing is known.
pub open spec fn unmarked_vowel() -> Phonet {
    Phonet::Vowel {
        height: Height::UnmarkedHeight,
        backness: Backness::UnmarkedBackness,
        rounding: Rounding::UnmarkedRounding,
        vocal_folds: VocalFolds::UnmarkedVocalFolds,
    }
}

/// Lists every sound that a description stands for. The list is the one that
/// `spec_generate_from_unmarked` defines; the other clauses say what follows
/// for its members and its length.
pub fn generate_from_unmarked(phonet: Phonet) -> (possibilities: Vec<Phonet>)
    ensures
        possibilities@ == spec_generate_from_unmarked(phonet),
        forall|other: Phonet|
            #![trigger possibilities@.contains(other)]
            #![trigger denotes(phonet, other)]
            possibilities@.contains(other) <==> denotes(phonet, other),
        possibilities@.no_duplicates(),
        phonet.is_concrete() ==> possibilities@ == seq![phonet],
        phonet == unmarked_consonant() ==> possibilities@.len() == 2640,
        phonet == unmarked_vowel() ==> possibilities@.len() == 210,
{
    proof {
        assert forall|other: Phonet|
            spec_generate_from_unmarked(phonet).contains(other) <==> denotes(phonet, other) by {
            lemma_generate_contains(phonet, other);
        }
        lemma_generate_no_duplicates(phonet);
        if phonet.is_concrete() {
            lemma_generate_of_concrete(phonet);
        }
        lemma_generate_from_wholly_unmarked();
    }
    match phonet {
        Phonet::Consonant { vocal_folds: voice1, place: place1, manner: manner1, airstream: airstream1 } => {
            let voice2 = voice1.candidates();
            let place2 = place1.candidates();
            let manner2 = manner1.candidates();
            let airstream2 = airstream1.candidates();
            consonants_of(&place2, &voice2, &manner2, &airstream2)
        },
        Phonet::Vowel { height: height1, backness: backness1, rounding: rounding1, vocal_folds: voice1 } => {
            let voice2 = voice1.candidates();
            let height2 = height1.candidates();
            let backness2 = backness1.candidates();
            let rounding2 = rounding1.candidates();
            vowels_of(&height2, &backness2, &rounding2, &voice2)
        },
    }
}

/// The list of a description holds exactly the sounds that the description
/// denotes.
pub proof fn lemma_generate_contains(description: Phonet, other: Phonet)
    ensures
        spec_generate_from_unmarked(description).contains(other) <==> denotes(description, other),
{
    match description {
        Phonet::Consonant { vocal_folds, place, manner, airstream } => {
            let places = place.spec_candidates();
            let voicings = vocal_folds.spec_candidates();
            let manners = manner.spec_candidates();
            let airstreams = airstream.spec_candidates();
            lemma_product4_contains(places, voicings, manners, airstreams, consonant_of(), other);
            if spec_generate_from_unmarked(description).contains(other) {
                let (p, v, m, a) = choose|p: Place, v: VocalFolds, m: Manner, a: Airstream|
                    places.contains(p) && voicings.contains(v) && manners.contains(m)
                        && airstreams.contains(a) && other == #[trigger] consonant_of()(p, v, m, a);
                place.lemma_candidates(p);
                vocal_folds.lemma_candidates(v);
                manner.lemma_candidates(m);
                airstream.lemma_candidates(a);
            }
            if denotes(description, other) {
                match other {
                    Phonet::Consonant { vocal_folds: v, place: p, manner: m, airstream: a } => {
                        place.lemma_candidates(p);
                        vocal_folds.lemma_candidates(v);
                        manner.lemma_candidates(m);
                        airstream.lemma_candidates(a);
                        assert(other == consonant_of()(p, v, m, a));
                    },
                    Phonet::Vowel { .. } => {},
                }
            }
        },
        Phonet::Vowel { height, backness, rounding, vocal_folds } => {
            let heights = height.spec_candidates();
            let backnesses = backness.spec_candidates();
            let roundings = rounding.spec_candidates();
            let voicings = vocal_folds.spec_candidates();
            lemma_product4_contains(heights, backnesses, roundings, voicings, vowel_of(), other);
            if spec_generate_from_unmarked(description).contains(other) {
                let (h, b, r, v) = choose|h: Height, b: Backness, r: Rounding, v: VocalFolds|
                    heights.contains(h) && backnesses.contains(b) && roundings.contains(r)
                        && voicings.contains(v) && other == #[trigger] vowel_of()(h, b, r, v);
                height.lemma_candidates(h);
                backness.lemma_candidates(b);
                rounding.lemma_candidates(r);
                vocal_folds.lemma_candidates(v);
            }
            if denotes(description, other) {
                match other {
                    Phonet::Vowel { height: h, backness: b, rounding: r, vocal_folds: v } => {
                        height.lemma_candidates(h);
                        backness.lemma_candidates(b);
                        rounding.lemma_candidates(r);
                        vocal_folds.lemma_candidates(v);
                        assert(other == vowel_of()(h, b, r, v));
                    },
                    Phonet::Consonant { .. } => {},
                }
            }
        },
    }
}

/// The list of a description holds no sound twice.
pub proof fn lemma_generate_no_duplicates(description: Phonet)
    ensures
        spec_generate_from_unmarked(description).no_duplicates(),
{
    VocalFolds::lemma_states();
    Place::lemma_states();
    Manner::lemma_states();
    Airstream::lemma_states();
    Height::lemma_states();
    Backness::lemma_states();
    Rounding::lemma_states();
    match description {
        Phonet::Consonant { vocal_folds, place, manner, airstream } => {
            lemma_product4_no_duplicates(
                place.spec_candidates(),
                vocal_folds.spec_candidates(),
                manner.spec_candidates(),
                airstream.spec_candidates(),
                consonant_of(),
            );
        },
        Phonet::Vowel { height, backness, rounding, vocal_folds } => {
            lemma_product4_no_duplicates(
                height.spec_candidates(),
                backness.spec_candidates(),
                rounding.spec_candidates(),
                vocal_folds.spec_candidates(),
                vowel_of(),
            );
        },
    }
}

/// The list of a concrete sound holds that sound and nothing else.
pub proof fn lemma_generate_of_concrete(phonet: Phonet)
    requires
        phonet.is_concrete(),
    ensures
        spec_generate_from_unmarked(phonet) == seq![phonet],
{
    let all = spec_generate_from_unmarked(phonet);
    assert(all.len() == 1) by {
        assert(1 * 1 * 1 * 1 == 1) by (nonlinear_arith);
    }
    lemma_generate_contains(phonet, all[0]);
    assert(all =~= seq![phonet]);
}

/// The wholly unmarked consonant stands for 16 x 5 x 11 x 3 = 2640
/// consonants, and the wholly unmarked vowel for 7 x 3 x 2 x 5 = 210 vowels.
pub proof fn lemma_generate_from_wholly_unmarked()
    ensures
        spec_generate_from_unmarked(unmarked_consonant()).len() == 2640,
        spec_generate_from_unmarked(unmarked_vowel()).len() == 210,
{
    VocalFolds::lemma_states();
    Place::lemma_states();
    Manner::lemma_states();
    Airstream::lemma_states();
    Height::lemma_states();
    Backness::lemma_states();
    Rounding::lemma_states();
    let (np, nv, nm, na) = (
        Place::UnmarkedPlace.spec_candidates().len(),
        VocalFolds::UnmarkedVocalFolds.spec_candidates().len(),
        Manner::UnmarkedManner.spec_candidates().len(),
        Airstream::UnmarkedAirstream.spec_candidates().len(),
    );
    let (nh, nb, nr) = (
        Height::UnmarkedHeight.spec_candidates().len(),
        Backness::UnmarkedBackness.spec_candidates().len(),
        Rounding::UnmarkedRounding.spec_candidates().len(),
    );
    assert(np * nv * nm * na == 2640) by (nonlinear_arith)
        requires
            np == 16,
            nv == 5,
            nm == 11,
            na == 3,
    ;
    assert(nh * nb * nr * nv == 210) by (nonlinear_arith)
        requires
            nh == 7,
            nb == 3,
            nr == 2,
            nv == 5,
    ;
}

/// The common description of two sounds of one variant denotes each of the
/// two exactly if that one is concrete: a sound with an unmarked field is not
/// among the sounds that any description stands for.
pub proof fn lemma_common_description_denotes(a: Phonet, b: Phonet)
    requires
        a.same_variant(b),
    ensures
        denotes(spec_unmark_differences(a, b), a) <==> a.is_concrete(),
        denotes(spec_unmark_differences(a, b), b) <==> b.is_concrete(),
{
}

/// Nothing is lost by generalizing: the list of the common description of two
/// concrete sounds of one variant holds both of them.
pub proof fn lemma_generalization_recovers(a: Phonet, b: Phonet)
    requires
        a.same_variant(b),
        a.is_concrete(),
        b.is_concrete(),
    ensures
        spec_generate_from_unmarked(spec_unmark_differences(a, b)).contains(a),
        spec_generate_from_unmarked(spec_unmark_differences(a, b)).contains(b),
{
    lemma_common_description_denotes(a, b);
    lemma_generate_contains(spec_unmark_differences(a, b), a);
    lemma_generate_contains(spec_unmark_differences(a, b), b);
}

/// The common description does not depend on the order of the two sounds.
pub proof fn lemma_unmark_differences_commutes(a: Phonet, b: Phonet)
    ensures
        spec_unmark_differences(a, b) == spec_unmark_differences(b, a),
{
}

} // verus!
