use phon_mod::features::{
    retracted_place, Airstream, Backness, Height, Manner, Place, Rounding, VocalFolds,
    AIRSTREAM_STATES, BACKNESS_STATES, HEIGHT_STATES, MANNER_STATES, PLACE_STATES,
    ROUNDING_STATES, VOCAL_FOLD_STATES,
};

#[test]
fn the_lists_of_marked_values_have_their_sizes() {
    assert_eq!(VOCAL_FOLD_STATES.len(), 5);
    assert_eq!(PLACE_STATES.len(), 16);
    assert_eq!(MANNER_STATES.len(), 11);
    assert_eq!(AIRSTREAM_STATES.len(), 3);
    assert_eq!(HEIGHT_STATES.len(), 7);
    assert_eq!(BACKNESS_STATES.len(), 3);
    assert_eq!(ROUNDING_STATES.len(), 2);
}

#[test]
fn the_lists_of_marked_values_are_in_order() {
    assert_eq!(
        VOCAL_FOLD_STATES,
        [
            VocalFolds::Voiceless,
            VocalFolds::Voiced,
            VocalFolds::VoicedAspirated,
            VocalFolds::VoicelessAspirated,
            VocalFolds::CreakyVoiced
        ]
    );
    assert_eq!(PLACE_STATES[0], Place::Bilabial);
    assert_eq!(PLACE_STATES[3], Place::Alveolar);
    assert_eq!(PLACE_STATES[10], Place::Glottal);
    assert_eq!(PLACE_STATES[11], Place::Epiglottal);
    assert_eq!(PLACE_STATES[15], Place::PalatoAlveolar);
    assert_eq!(MANNER_STATES[0], Manner::Plosive);
    assert_eq!(MANNER_STATES[4], Manner::Approximant);
    assert_eq!(MANNER_STATES[5], Manner::Fricative);
    assert_eq!(MANNER_STATES[10], Manner::Lateral);
    assert_eq!(AIRSTREAM_STATES, [Airstream::PulmonicEgressive, Airstream::Click, Airstream::Implosive]);
    assert_eq!(
        HEIGHT_STATES,
        [
            Height::Close,
            Height::NearClose,
            Height::CloseMid,
            Height::Mid,
            Height::OpenMid,
            Height::NearOpen,
            Height::Open
        ]
    );
    assert_eq!(BACKNESS_STATES, [Backness::Front, Backness::Central, Backness::Back]);
    assert_eq!(ROUNDING_STATES, [Rounding::Rounded, Rounding::Unrounded]);
}

#[test]
fn the_unmarked_value_is_in_no_list() {
    assert!(!VOCAL_FOLD_STATES.contains(&VocalFolds::UnmarkedVocalFolds));
    assert!(!PLACE_STATES.contains(&Place::UnmarkedPlace));
    assert!(!MANNER_STATES.contains(&Manner::UnmarkedManner));
    assert!(!AIRSTREAM_STATES.contains(&Airstream::UnmarkedAirstream));
    assert!(!HEIGHT_STATES.contains(&Height::UnmarkedHeight));
    assert!(!BACKNESS_STATES.contains(&Backness::UnmarkedBackness));
    assert!(!ROUNDING_STATES.contains(&Rounding::UnmarkedRounding));
}

#[test]
fn no_list_holds_a_value_twice() {
    for (i, a) in PLACE_STATES.iter().enumerate() {
        for (j, b) in PLACE_STATES.iter().enumerate() {
            assert_eq!(i == j, a == b);
        }
    }
    for (i, a) in MANNER_STATES.iter().enumerate() {
        for (j, b) in MANNER_STATES.iter().enumerate() {
            assert_eq!(i == j, a == b);
        }
    }
    for (i, a) in VOCAL_FOLD_STATES.iter().enumerate() {
        for (j, b) in VOCAL_FOLD_STATES.iter().enumerate() {
            assert_eq!(i == j, a == b);
        }
    }
}

#[test]
fn an_unmarked_value_stands_for_every_marked_value() {
    assert_eq!(VocalFolds::UnmarkedVocalFolds.candidates(), VOCAL_FOLD_STATES.to_vec());
    assert_eq!(Place::UnmarkedPlace.candidates(), PLACE_STATES.to_vec());
    assert_eq!(Manner::UnmarkedManner.candidates(), MANNER_STATES.to_vec());
    assert_eq!(Airstream::UnmarkedAirstream.candidates(), AIRSTREAM_STATES.to_vec());
    assert_eq!(Height::UnmarkedHeight.candidates(), HEIGHT_STATES.to_vec());
    assert_eq!(Backness::UnmarkedBackness.candidates(), BACKNESS_STATES.to_vec());
    assert_eq!(Rounding::UnmarkedRounding.candidates(), ROUNDING_STATES.to_vec());
}

#[test]
fn a_marked_value_stands_for_itself() {
    assert_eq!(VocalFolds::CreakyVoiced.candidates(), vec![VocalFolds::CreakyVoiced]);
    assert_eq!(Place::Velar.candidates(), vec![Place::Velar]);
    assert_eq!(Manner::Trill.candidates(), vec![Manner::Trill]);
    assert_eq!(Airstream::Click.candidates(), vec![Airstream::Click]);
    assert_eq!(Height::Mid.candidates(), vec![Height::Mid]);
    assert_eq!(Backness::Back.candidates(), vec![Backness::Back]);
    assert_eq!(Rounding::Rounded.candidates(), vec![Rounding::Rounded]);
}

#[test]
fn retraction_moves_one_place_back() {
    assert_eq!(retracted_place(Place::Bilabial), Place::LabioDental);
    assert_eq!(retracted_place(Place::LabioDental), Place::Dental);
    assert_eq!(retracted_place(Place::Dental), Place::Alveolar);
    assert_eq!(retracted_place(Place::Alveolar), Place::PostAlveolar);
    assert_eq!(retracted_place(Place::PostAlveolar), Place::Retroflex);
    assert_eq!(retracted_place(Place::Retroflex), Place::Palatal);
    assert_eq!(retracted_place(Place::Palatal), Place::Velar);
    assert_eq!(retracted_place(Place::Velar), Place::Uvular);
    assert_eq!(retracted_place(Place::Uvular), Place::Pharyngeal);
    assert_eq!(retracted_place(Place::Pharyngeal), Place::Glottal);
}

#[test]
fn retraction_follows_the_list_of_places() {
    for i in 0..10 {
        assert_eq!(retracted_place(PLACE_STATES[i]), PLACE_STATES[i + 1]);
    }
}

#[test]
fn retraction_stops_at_the_glottis() {
    for i in 10..16 {
        assert_eq!(retracted_place(PLACE_STATES[i]), PLACE_STATES[i]);
    }
    assert_eq!(retracted_place(Place::Glottal), Place::Glottal);
    assert_eq!(retracted_place(Place::Epiglottal), Place::Epiglottal);
    assert_eq!(retracted_place(Place::PalatoAlveolar), Place::PalatoAlveolar);
    assert_eq!(retracted_place(Place::UnmarkedPlace), Place::UnmarkedPlace);
}
