use phon_mod::features::Airstream::{Click, Implosive, PulmonicEgressive, UnmarkedAirstream};
use phon_mod::features::Backness::{Back, Central, Front};
use phon_mod::features::Height::{Close, CloseMid, Mid, Open};
use phon_mod::features::Manner::{
    Affricate, Approximant, Fricative, Lateral, LateralApproximant, LateralFlap, LateralFricative,
    Nasal, Plosive, TapOrFlap, Trill, UnmarkedManner,
};
use phon_mod::features::Place::{
    Alveolar, AlveoloPalatal, Bilabial, Dental, Epiglottal, Glottal, LabialVelar, LabioDental,
    Palatal, PalatoAlveolar, PostAlveolar, Retroflex, UnmarkedPlace, Uvular, Velar,
};
use phon_mod::features::Rounding::{Rounded, UnmarkedRounding, Unrounded};
use phon_mod::features::VocalFolds::{
    CreakyVoiced, UnmarkedVocalFolds, Voiced, VoicedAspirated, Voiceless, VoicelessAspirated,
};
use phon_mod::features::{Manner, Place, VocalFolds, PLACE_STATES};
use phon_mod::grapheme::international_phonetic_alphabet::{
    analyze_manner_transcription, analyze_place_transcription, analyze_transcription,
    analyze_transcriptionv2, col_index_to_voicing, construct_transcription,
    construct_transcription1, construct_transcription2, construct_unaspirated_pulmonic_egressive,
    deaspirate, devoiced_transcription, manner_to_row_index, place_to_half_col_index,
    spirantized_transcription, unrecognized_phonet, voiced_transcription,
    voicing_and_place_to_col_index, voicing_to_col_index_offset, IPAText,
    CONSONANTS_NON_PULMONIC, CONSONANTS_PULMONIC_TABLE, OTHER_SYMBOLS, PULMONIC_ROWS, VOWELS,
};
use phon_mod::phonet::Phonet;
use phon_mod::phonet::Phonet::{Consonant, Vowel};

fn pulmonic(vocal_folds: VocalFolds, place: Place, manner: Manner) -> Phonet {
    Consonant { vocal_folds, place, manner, airstream: PulmonicEgressive }
}

fn unparseable() -> Phonet {
    Consonant {
        vocal_folds: UnmarkedVocalFolds,
        place: UnmarkedPlace,
        manner: UnmarkedManner,
        airstream: PulmonicEgressive,
    }
}

fn analyze(text: &str) -> Phonet {
    analyze_transcription(String::from(text))
}

#[test]
fn voiced_transcription_test() {
    assert_eq!(voiced_transcription(String::from("s")), "z");
}

#[test]
fn spirantized_transcription_test_voiceless_alveolar_spirantized() {
    assert_eq!(spirantized_transcription(String::from("t")), "θ");
}

#[test]
fn devoiced_transcription_of_voiced_bilabial_plosive() {
    assert_eq!(devoiced_transcription(String::from("b")), "p");
}

#[test]
fn voiced_transcription_of_a_voiced_sound_is_unchanged() {
    assert_eq!(voiced_transcription(String::from("z")), "z");
    assert_eq!(voiced_transcription(String::from("a")), "a");
}

#[test]
fn voiced_transcription_without_a_voiced_symbol_uses_the_voiced_mark() {
    // The glottal stop has no voiced counterpart in the grid.
    assert_eq!(voiced_transcription(String::from("ʔ")), "ʔ\u{032C}");
}

#[test]
fn devoiced_transcription_without_a_voiceless_symbol_uses_the_voiceless_mark() {
    assert_eq!(devoiced_transcription(String::from("m")), "m\u{0325}");
    assert_eq!(devoiced_transcription(String::from("a")), "a\u{0325}");
}

#[test]
fn devoiced_transcription_keeps_aspiration() {
    assert_eq!(devoiced_transcription(String::from("dʰ")), "tʰ");
    assert_eq!(voiced_transcription(String::from("tʰ")), "dʰ");
}

#[test]
fn spirantized_transcription_of_other_stops_keeps_the_place() {
    assert_eq!(spirantized_transcription(String::from("p")), "ɸ");
    assert_eq!(spirantized_transcription(String::from("d")), "ð");
    assert_eq!(spirantized_transcription(String::from("k")), "x");
    assert_eq!(spirantized_transcription(String::from("g")), "ɣ");
}

#[test]
fn spirantized_transcription_leaves_a_fricative_alone() {
    assert_eq!(spirantized_transcription(String::from("s")), "s");
    assert_eq!(spirantized_transcription(String::from("θ")), "θ");
}

#[test]
fn analyze_symbols_of_the_grid() {
    assert_eq!(analyze("p"), pulmonic(Voiceless, Bilabial, Plosive));
    assert_eq!(analyze("b"), pulmonic(Voiced, Bilabial, Plosive));
    assert_eq!(analyze("s"), pulmonic(Voiceless, Alveolar, Fricative));
    assert_eq!(analyze("z"), pulmonic(Voiced, Alveolar, Fricative));
    assert_eq!(analyze("ʃ"), pulmonic(Voiceless, PostAlveolar, Fricative));
    assert_eq!(analyze("ŋ"), pulmonic(Voiced, Velar, Nasal));
    assert_eq!(analyze("ʀ"), pulmonic(Voiced, Uvular, Trill));
    assert_eq!(analyze("ɾ"), pulmonic(Voiced, Alveolar, TapOrFlap));
    assert_eq!(analyze("ɬ"), pulmonic(Voiceless, Alveolar, LateralFricative));
    assert_eq!(analyze("j"), pulmonic(Voiced, Palatal, Approximant));
    assert_eq!(analyze("ʟ"), pulmonic(Voiced, Velar, LateralApproximant));
    assert_eq!(analyze("ʔ"), pulmonic(Voiceless, Glottal, Plosive));
    assert_eq!(analyze("ɦ"), pulmonic(Voiced, Glottal, Fricative));
    assert_eq!(analyze("ⱱ"), pulmonic(Voiced, LabioDental, TapOrFlap));
}

#[test]
fn analyze_symbols_beside_the_grid() {
    assert_eq!(analyze("w"), pulmonic(Voiced, LabialVelar, Approximant));
    assert_eq!(analyze("ʡ"), pulmonic(Voiceless, Epiglottal, Plosive));
    assert_eq!(analyze("ʑ"), pulmonic(Voiced, AlveoloPalatal, Fricative));
    assert_eq!(analyze("ɺ"), pulmonic(Voiced, Alveolar, LateralFlap));
    assert_eq!(
        analyze("ǂ"),
        Consonant {
            vocal_folds: UnmarkedVocalFolds,
            place: PalatoAlveolar,
            manner: UnmarkedManner,
            airstream: Click
        }
    );
    assert_eq!(
        analyze("ǁ"),
        Consonant { vocal_folds: UnmarkedVocalFolds, place: Alveolar, manner: Lateral, airstream: Click }
    );
    assert_eq!(
        analyze("ɗ"),
        Consonant { vocal_folds: Voiced, place: Dental, manner: UnmarkedManner, airstream: Implosive }
    );
}

#[test]
fn analyze_vowels() {
    assert_eq!(
        analyze("i"),
        Vowel { height: Close, backness: Front, rounding: Unrounded, vocal_folds: Voiced }
    );
    assert_eq!(
        analyze("u"),
        Vowel { height: Close, backness: Back, rounding: Rounded, vocal_folds: Voiced }
    );
    assert_eq!(
        analyze("ə"),
        Vowel { height: Mid, backness: Central, rounding: UnmarkedRounding, vocal_folds: Voiced }
    );
    assert_eq!(
        analyze("ɒ"),
        Vowel { height: Open, backness: Back, rounding: Rounded, vocal_folds: Voiced }
    );
}

#[test]
fn analyze_and_construct_the_velar_affricate() {
    let affricate = analyze("k\u{0361}x");
    assert_eq!(affricate, pulmonic(Voiceless, Velar, Affricate));
    assert_eq!(construct_transcription(affricate), "k\u{0361}x");
}

#[test]
fn every_affricate_comes_back() {
    let affricates = [
        ("t\u{0361}ʃ", Voiceless, PostAlveolar),
        ("d\u{0361}ʒ", Voiced, PostAlveolar),
        ("p\u{0361}ɸ", Voiceless, Bilabial),
        ("t\u{035C}s", Voiceless, Alveolar),
        ("d\u{0361}z", Voiced, Alveolar),
        ("k\u{0361}x", Voiceless, Velar),
        ("q\u{0361}χ", Voiceless, Uvular),
    ];
    for (text, vocal_folds, place) in affricates {
        let phonet = pulmonic(vocal_folds, place, Affricate);
        assert_eq!(analyze(text), phonet);
        assert_eq!(construct_transcription(phonet), text);
    }
}

#[test]
fn an_affricate_with_the_wrong_tie_bar_is_not_recognized() {
    assert_eq!(analyze("t\u{035C}ʃ"), unparseable());
    assert_eq!(analyze("t\u{0361}s"), unparseable());
    assert_eq!(analyze("tʃ\u{0361}"), unparseable());
}

#[test]
fn analyze_the_voiceless_mark() {
    assert_eq!(analyze("n\u{0325}"), pulmonic(Voiceless, Alveolar, Nasal));
    assert_eq!(analyze("z\u{0325}"), pulmonic(Voiceless, Alveolar, Fricative));
    assert_eq!(
        analyze("a\u{0325}"),
        Vowel { height: Open, backness: Front, rounding: Unrounded, vocal_folds: Voiceless }
    );
}

#[test]
fn analyze_the_voiced_mark() {
    assert_eq!(analyze("s\u{032C}"), pulmonic(Voiced, Alveolar, Fricative));
    assert_eq!(analyze("ʔ\u{032C}"), pulmonic(Voiced, Glottal, Plosive));
    assert_eq!(
        analyze("o\u{032C}"),
        Vowel { height: CloseMid, backness: Back, rounding: Rounded, vocal_folds: Voiced }
    );
}

#[test]
fn analyze_a_mark_on_a_symbol_of_several_bytes() {
    // The base symbol is two bytes long and the mark two more.
    assert_eq!(analyze("ʃ\u{032C}"), pulmonic(Voiced, PostAlveolar, Fricative));
    assert_eq!(analyze("ɲ\u{0325}"), pulmonic(Voiceless, Palatal, Nasal));
    assert_eq!(analyze("ʈʰ"), pulmonic(VoicelessAspirated, Retroflex, Plosive));
}

#[test]
fn analyze_the_aspiration_mark() {
    assert_eq!(analyze("tʰ"), pulmonic(VoicelessAspirated, Alveolar, Plosive));
    assert_eq!(analyze("bʰ"), pulmonic(VoicedAspirated, Bilabial, Plosive));
}

#[test]
fn aspiration_leaves_a_vowel_as_it_is() {
    let o = Vowel { height: CloseMid, backness: Back, rounding: Rounded, vocal_folds: Voiced };
    assert_eq!(analyze("o"), o);
    assert_eq!(analyze("oʰ"), o);
}

#[test]
fn aspiration_on_a_consonant_without_plain_voicing_is_not_recognized() {
    // A click has unmarked voicing.
    assert_eq!(analyze("ǃʰ"), unparseable());
}

#[test]
fn an_unsupported_diacritic_is_not_recognized() {
    // The combining tilde, on a vowel and on a consonant.
    assert_eq!(analyze("o\u{0303}"), unparseable());
    assert_eq!(analyze("n\u{0303}"), unparseable());
    // The retraction mark is written but not read.
    assert_eq!(analyze("t\u{0320}"), unparseable());
    // Two symbols in a row are no symbol with a diacritic.
    assert_eq!(analyze("ts"), unparseable());
}

#[test]
fn a_mark_on_an_unknown_symbol_gives_the_voicing_alone() {
    assert_eq!(
        analyze("?\u{0325}"),
        Consonant {
            vocal_folds: Voiceless,
            place: UnmarkedPlace,
            manner: UnmarkedManner,
            airstream: PulmonicEgressive
        }
    );
}

#[test]
fn unrecognized_text_gives_the_unmarked_pulmonic_consonant() {
    assert_eq!(unrecognized_phonet(), unparseable());
    assert_ne!(
        unrecognized_phonet(),
        Consonant {
            vocal_folds: UnmarkedVocalFolds,
            place: UnmarkedPlace,
            manner: UnmarkedManner,
            airstream: UnmarkedAirstream
        }
    );
    assert_eq!(analyze(""), unparseable());
    assert_eq!(analyze(" "), unparseable());
    assert_eq!(analyze("?"), unparseable());
    assert_eq!(analyze("\u{00F5}"), unparseable());
    assert_eq!(analyze("ɧ"), unparseable());
    assert_eq!(analyze("∅"), unparseable());
    assert_eq!(analyze("\u{0325}"), unparseable());
    assert_eq!(analyze("stop"), unparseable());
    assert_eq!(analyze("t\u{0361}ʃʰ"), unparseable());
}

#[test]
fn every_symbol_of_the_grid_comes_back() {
    let mut symbols = 0;
    for row in CONSONANTS_PULMONIC_TABLE.iter() {
        for symbol in row.iter() {
            if *symbol != ' ' {
                let text = symbol.to_string();
                assert_eq!(construct_transcription(analyze_transcription(text.clone())), text);
                symbols += 1;
            }
        }
    }
    assert_eq!(symbols, 59);
}

#[test]
fn the_grid_decodes_by_row_and_column() {
    for (row_index, row) in CONSONANTS_PULMONIC_TABLE.iter().enumerate() {
        for (col_index, symbol) in row.iter().enumerate() {
            if *symbol != ' ' {
                let voicing = if col_index % 2 == 0 { Voiceless } else { Voiced };
                let expected =
                    pulmonic(voicing, PLACE_STATES[col_index / 2], PULMONIC_ROWS[row_index]);
                assert_eq!(analyze_transcription(symbol.to_string()), expected);
                assert_eq!(analyze_transcriptionv2(*symbol), expected);
            }
        }
    }
}

#[test]
fn every_vowel_symbol_comes_back() {
    assert_eq!(VOWELS.len(), 28);
    for symbol in VOWELS.iter() {
        let text = symbol.to_string();
        let vowel = analyze_transcription(text.clone());
        assert!(matches!(vowel, Vowel { vocal_folds: Voiced, .. }));
        assert_eq!(construct_transcription(vowel), text);
    }
}

#[test]
fn every_click_and_implosive_symbol_comes_back() {
    assert_eq!(CONSONANTS_NON_PULMONIC.len(), 10);
    for symbol in CONSONANTS_NON_PULMONIC.iter() {
        let text = symbol.to_string();
        let consonant = analyze_transcription(text.clone());
        assert!(matches!(consonant, Consonant { airstream: Click, .. } | Consonant { airstream: Implosive, .. }));
        assert_eq!(construct_transcription(consonant), text);
    }
}

#[test]
fn every_other_symbol_but_one_comes_back() {
    assert_eq!(OTHER_SYMBOLS.len(), 10);
    for symbol in OTHER_SYMBOLS.iter() {
        let text = symbol.to_string();
        let consonant = analyze_transcription(text.clone());
        if *symbol == 'ɧ' {
            assert_eq!(consonant, unparseable());
            assert_eq!(construct_transcription(consonant), "∅");
        } else {
            assert_eq!(construct_transcription(consonant), text);
        }
    }
}

#[test]
fn construct_symbols_of_the_charts() {
    assert_eq!(construct_transcription(pulmonic(Voiced, Alveolar, Fricative)), "z");
    assert_eq!(construct_transcription(pulmonic(Voiceless, Dental, Fricative)), "θ");
    assert_eq!(construct_transcription(pulmonic(Voiceless, Bilabial, Plosive)), "p");
    assert_eq!(construct_transcription(pulmonic(Voiced, LabialVelar, Approximant)), "w");
    assert_eq!(
        construct_transcription(Vowel {
            height: Mid,
            backness: Central,
            rounding: UnmarkedRounding,
            vocal_folds: Voiced
        }),
        "ə"
    );
    assert_eq!(
        construct_transcription(Consonant {
            vocal_folds: UnmarkedVocalFolds,
            place: Bilabial,
            manner: UnmarkedManner,
            airstream: Click
        }),
        "ʘ"
    );
}

#[test]
fn construct_aspirated_consonants() {
    assert_eq!(construct_transcription(pulmonic(VoicelessAspirated, Alveolar, Plosive)), "tʰ");
    assert_eq!(construct_transcription(pulmonic(VoicedAspirated, Velar, Plosive)), "gʰ");
    assert_eq!(
        construct_transcription1(pulmonic(VoicelessAspirated, Bilabial, Plosive)),
        Some(String::from("pʰ"))
    );
}

#[test]
fn construct_with_the_voiceless_mark() {
    assert_eq!(construct_transcription(pulmonic(Voiceless, Alveolar, Nasal)), "n\u{0325}");
    assert_eq!(construct_transcription(pulmonic(Voiceless, Alveolar, Trill)), "r\u{0325}");
    assert_eq!(construct_transcription(pulmonic(Voiceless, LabialVelar, Approximant)), "w\u{0325}");
    assert_eq!(
        construct_transcription(Vowel {
            height: Close,
            backness: Front,
            rounding: Unrounded,
            vocal_folds: Voiceless
        }),
        "i\u{0325}"
    );
}

#[test]
fn construct_with_the_voiced_mark() {
    assert_eq!(construct_transcription(pulmonic(Voiced, Glottal, Plosive)), "ʔ\u{032C}");
    assert_eq!(construct_transcription(pulmonic(Voiced, Epiglottal, Plosive)), "ʡ\u{032C}");
}

#[test]
fn construct_with_the_retraction_mark() {
    assert_eq!(construct_transcription(pulmonic(Voiceless, PostAlveolar, Plosive)), "t\u{0320}");
    assert_eq!(construct_transcription(pulmonic(Voiced, PostAlveolar, Nasal)), "n\u{0320}");
    // The aspirated stop has no cell of its own, so the mark goes behind the
    // aspirated alveolar stop.
    assert_eq!(
        construct_transcription(pulmonic(VoicelessAspirated, PostAlveolar, Plosive)),
        "tʰ\u{0320}"
    );
    // The postalveolar fricatives have symbols and need no mark.
    assert_eq!(construct_transcription(pulmonic(Voiceless, PostAlveolar, Fricative)), "ʃ");
    assert_eq!(construct_transcription(pulmonic(Voiced, PostAlveolar, Fricative)), "ʒ");
}

#[test]
fn construct_gives_the_empty_set_sign_where_there_is_no_symbol() {
    assert_eq!(construct_transcription(unparseable()), "∅");
    assert_eq!(construct_transcription(pulmonic(CreakyVoiced, Alveolar, Nasal)), "∅");
    assert_eq!(construct_transcription(pulmonic(UnmarkedVocalFolds, Alveolar, Plosive)), "∅");
    // Neither the voiceless nor the voiced labiodental plosive has a symbol.
    assert_eq!(construct_transcription(pulmonic(Voiceless, LabioDental, Plosive)), "∅");
    assert_eq!(construct_transcription(pulmonic(Voiced, LabioDental, Plosive)), "∅");
    // A retracted sound whose alveolar neighbour has no symbol.
    assert_eq!(construct_transcription(pulmonic(Voiceless, PostAlveolar, Nasal)), "∅");
    // An aspirated sound whose plain counterpart has no symbol.
    assert_eq!(construct_transcription(pulmonic(VoicelessAspirated, Bilabial, Nasal)), "∅");
    // A manner or a place that the grid does not have.
    assert_eq!(construct_transcription(pulmonic(Voiced, Alveolar, Lateral)), "∅");
    assert_eq!(construct_transcription(pulmonic(Voiced, PalatoAlveolar, Plosive)), "∅");
    assert_eq!(construct_transcription(pulmonic(Voiced, UnmarkedPlace, Plosive)), "∅");
    assert_eq!(construct_transcription(pulmonic(Voiced, Bilabial, Affricate)), "∅");
    // A vowel height and backness without a symbol.
    assert_eq!(
        construct_transcription(Vowel {
            height: Mid,
            backness: Front,
            rounding: Rounded,
            vocal_folds: Voiced
        }),
        "∅"
    );
    assert_eq!(
        construct_transcription(Vowel {
            height: Close,
            backness: Front,
            rounding: Rounded,
            vocal_folds: CreakyVoiced
        }),
        "∅"
    );
    // A click with a voicing has no symbol, and its neighbour has none either.
    assert_eq!(
        construct_transcription(Consonant {
            vocal_folds: Voiced,
            place: Bilabial,
            manner: UnmarkedManner,
            airstream: Click
        }),
        "∅"
    );
}

#[test]
fn construct_transcription1_gives_none_without_a_symbol() {
    assert_eq!(construct_transcription1(pulmonic(Voiced, Alveolar, Fricative)), Some(String::from("z")));
    assert_eq!(construct_transcription1(pulmonic(Voiceless, Alveolar, Nasal)), None);
    assert_eq!(construct_transcription1(pulmonic(Voiceless, PostAlveolar, Plosive)), None);
    assert_eq!(construct_transcription1(pulmonic(Voiceless, Velar, Affricate)), None);
    assert_eq!(construct_transcription1(unparseable()), None);
}

#[test]
fn construct_transcription2_puts_one_mark_on_a_neighbour() {
    assert_eq!(construct_transcription2(pulmonic(Voiceless, Alveolar, Nasal)), "n\u{0325}");
    assert_eq!(construct_transcription2(pulmonic(Voiced, Glottal, Plosive)), "ʔ\u{032C}");
    assert_eq!(construct_transcription2(pulmonic(Voiced, PostAlveolar, Plosive)), "d\u{0320}");
    // It does not look at the symbol of the phonet itself.
    assert_eq!(construct_transcription2(pulmonic(Voiceless, Alveolar, Fricative)), "z\u{0325}");
    assert_eq!(construct_transcription2(pulmonic(CreakyVoiced, Alveolar, Fricative)), "∅");
}

#[test]
fn the_analysis_undoes_the_construction_with_a_voicing_mark() {
    for phonet in [
        pulmonic(Voiceless, Alveolar, Nasal),
        pulmonic(Voiced, Glottal, Plosive),
        pulmonic(VoicedAspirated, Bilabial, Plosive),
        pulmonic(Voiceless, Retroflex, Approximant),
        Vowel { height: Open, backness: Back, rounding: Rounded, vocal_folds: Voiceless },
    ] {
        assert_eq!(analyze_transcription(construct_transcription(phonet)), phonet);
    }
}

#[test]
fn rows_and_columns_of_the_grid() {
    assert_eq!(analyze_manner_transcription('p'), Some((Plosive, 0)));
    assert_eq!(analyze_manner_transcription('s'), Some((Fricative, 4)));
    assert_eq!(analyze_manner_transcription('ʟ'), Some((LateralApproximant, 7)));
    assert_eq!(analyze_manner_transcription(' '), None);
    assert_eq!(analyze_manner_transcription('a'), None);
    assert_eq!(analyze_place_transcription(0), Bilabial);
    assert_eq!(analyze_place_transcription(7), Alveolar);
    assert_eq!(analyze_place_transcription(21), Glottal);
    assert_eq!(col_index_to_voicing(0), Voiceless);
    assert_eq!(col_index_to_voicing(7), Voiced);
    assert_eq!(manner_to_row_index(Plosive), Some(0));
    assert_eq!(manner_to_row_index(Fricative), Some(4));
    assert_eq!(manner_to_row_index(Approximant), Some(6));
    assert_eq!(manner_to_row_index(LateralApproximant), Some(7));
    assert_eq!(manner_to_row_index(Affricate), None);
    assert_eq!(manner_to_row_index(UnmarkedManner), None);
    assert_eq!(place_to_half_col_index(Bilabial), Some(0));
    assert_eq!(place_to_half_col_index(Glottal), Some(10));
    assert_eq!(place_to_half_col_index(Epiglottal), None);
    assert_eq!(place_to_half_col_index(UnmarkedPlace), None);
    assert_eq!(voicing_to_col_index_offset(Voiceless), 0);
    assert_eq!(voicing_to_col_index_offset(Voiced), 1);
    assert_eq!(voicing_to_col_index_offset(VoicelessAspirated), 0);
    assert_eq!(voicing_to_col_index_offset(VoicedAspirated), 1);
    assert_eq!(voicing_to_col_index_offset(CreakyVoiced), 1);
    assert_eq!(voicing_to_col_index_offset(UnmarkedVocalFolds), 0);
    assert_eq!(voicing_and_place_to_col_index(Voiced, Alveolar), Some(7));
    assert_eq!(voicing_and_place_to_col_index(Voiceless, Glottal), Some(20));
    assert_eq!(voicing_and_place_to_col_index(Voiced, LabialVelar), None);
}

#[test]
fn the_cell_of_a_consonant() {
    assert_eq!(construct_unaspirated_pulmonic_egressive(pulmonic(Voiced, Alveolar, Fricative)), Some('z'));
    assert_eq!(construct_unaspirated_pulmonic_egressive(pulmonic(Voiceless, Uvular, Plosive)), Some('q'));
    assert_eq!(construct_unaspirated_pulmonic_egressive(pulmonic(Voiceless, Alveolar, Nasal)), None);
    assert_eq!(construct_unaspirated_pulmonic_egressive(pulmonic(Voiced, Alveolar, Affricate)), None);
    assert_eq!(
        construct_unaspirated_pulmonic_egressive(Vowel {
            height: Close,
            backness: Front,
            rounding: Unrounded,
            vocal_folds: Voiced
        }),
        None
    );
}

#[test]
fn deaspirate_takes_the_aspiration_only() {
    assert_eq!(deaspirate(pulmonic(VoicedAspirated, Velar, Plosive)), pulmonic(Voiced, Velar, Plosive));
    assert_eq!(deaspirate(pulmonic(VoicelessAspirated, Velar, Plosive)), pulmonic(Voiceless, Velar, Plosive));
    assert_eq!(deaspirate(pulmonic(CreakyVoiced, Velar, Plosive)), pulmonic(CreakyVoiced, Velar, Plosive));
    let vowel = Vowel { height: Close, backness: Front, rounding: Unrounded, vocal_folds: VoicedAspirated };
    assert_eq!(deaspirate(vowel), vowel);
}

#[test]
fn ipa_text_holds_its_string() {
    let text = IPAText(String::from("k\u{0361}x"));
    assert_eq!(analyze_transcription(text.0), pulmonic(Voiceless, Velar, Affricate));
}
