use chord_composer::io::deseralizer::{CompositionParameters, MasterParameters, PatternParameters};
use chord_composer::music_time::MusicTime;
use chord_composer::time_signature::TimeSignature;
use chord_composer::{build_event, parameters_to_composition, FailResult};

fn event(bar: u16, beat: u8, interval: u8, chord: &str, transpose: i8) -> (u16, u8, u8, String, i8) {
    (bar, beat, interval, chord.to_string(), transpose)
}

fn pattern(name: Option<&str>, events: Vec<(u16, u8, u8, String, i8)>) -> PatternParameters {
    PatternParameters {
        name: name.map(|n| n.to_string()),
        master: None,
        pattern: Some(events),
    }
}

fn description(patterns: Vec<PatternParameters>) -> CompositionParameters {
    CompositionParameters {
        name: None,
        master: None,
        chords: None,
        patterns: Some(patterns),
    }
}

#[test]
fn defaults_are_key_c_120_bpm_and_common_time() {
    let params = description(vec![pattern(None, vec![event(1, 1, 1, "MAJOR", 0)])]);
    let composition = parameters_to_composition(&params).unwrap();
    assert_eq!(composition.get_name(), "Unnamed composition");
    assert_eq!(composition.len(), 1);
    let compiled = composition.get(0);
    assert_eq!(compiled.get_name(), "unnamed_pattern_0");
    assert_eq!(compiled.get_bpm(), 120);
    assert_eq!(compiled.get_time_signature(), TimeSignature::new(4, 4));
    assert_eq!(
        compiled.get_events(),
        &vec![(MusicTime::new(1, 1, 1), vec![60, 64, 67])]
    );
    assert_eq!(compiled.get(0), &build_event(1, 1, 1, vec![0, 4, 7], 0));
    assert!(composition.is_valid());
}

#[test]
fn unnamed_patterns_are_named_by_their_place() {
    let mut patterns = Vec::new();
    for i in 0..12 {
        patterns.push(pattern(
            if i == 3 { Some("third") } else { None },
            vec![],
        ));
    }
    let composition = parameters_to_composition(&description(patterns)).unwrap();
    assert_eq!(composition.get(0).get_name(), "unnamed_pattern_0");
    assert_eq!(composition.get(2).get_name(), "unnamed_pattern_2");
    assert_eq!(composition.get(3).get_name(), "third");
    assert_eq!(composition.get(4).get_name(), "unnamed_pattern_4");
    assert_eq!(composition.get(11).get_name(), "unnamed_pattern_11");
}

#[test]
fn overrides_win_field_by_field() {
    let mut params = description(vec![
        pattern(Some("plain"), vec![event(1, 1, 1, "POWER", 0)]),
        PatternParameters {
            name: Some("own".to_string()),
            master: Some(MasterParameters {
                key: Some("B".to_string()),
                time: None,
                signature: Some((7, 64)),
            }),
            pattern: Some(vec![event(1, 7, 8, "POWER", -1)]),
        },
    ]);
    params.name = Some("song".to_string());
    params.master = Some(MasterParameters {
        key: Some("D#".to_string()),
        time: Some(90),
        signature: None,
    });
    let composition = parameters_to_composition(&params).unwrap();
    assert_eq!(composition.get_name(), "song");
    assert_eq!(composition.get(0).get_bpm(), 90);
    assert_eq!(composition.get(0).get_time_signature(), TimeSignature::new(4, 4));
    assert_eq!(composition.get(0).get(0).1, vec![63, 70]);
    assert_eq!(composition.get(1).get_bpm(), 90);
    assert_eq!(composition.get(1).get_time_signature(), TimeSignature::new(7, 64));
    assert_eq!(composition.get(1).get(0).1, vec![70, 77]);
}

#[test]
fn unknown_key_counts_as_c_and_unknown_chord_has_no_pitches() {
    let mut params = description(vec![pattern(
        None,
        vec![event(1, 1, 1, "nothing", 0), event(1, 1, 2, " MINOR ", 0)],
    )]);
    params.master = Some(MasterParameters {
        key: Some("H".to_string()),
        time: None,
        signature: None,
    });
    let composition = parameters_to_composition(&params).unwrap();
    assert_eq!(composition.get(0).get(0).1, Vec::<u8>::new());
    assert_eq!(composition.get(0).get(1).1, vec![60, 63, 67]);
}

#[test]
fn pitches_of_compiled_events_saturate() {
    let mut params = description(vec![pattern(
        None,
        vec![
            event(1, 1, 1, "wide", 127),
            event(1, 1, 2, "wide", -128),
            event(1, 1, 3, "wide", 0),
        ],
    )]);
    params.chords = Some(vec![("wide".to_string(), vec![-128, -100, 0, 100, 127])]);
    params.master = Some(MasterParameters {
        key: Some("B".to_string()),
        time: None,
        signature: None,
    });
    let composition = parameters_to_composition(&params).unwrap();
    assert_eq!(composition.get(0).get(0).1, vec![70, 98, 107, 107, 107]);
    assert_eq!(composition.get(0).get(1).1, vec![24, 24, 24, 43, 70]);
    assert_eq!(composition.get(0).get(2).1, vec![24, 24, 71, 107, 107]);
}

#[test]
fn any_declared_chord_is_one_of_the_declared() {
    let mut params = description(vec![pattern(
        None,
        vec![event(1, 1, 1, "?", 0), event(1, 2, 1, "??", 1)],
    )]);
    params.chords = Some(vec![
        ("a".to_string(), vec![0]),
        ("b".to_string(), vec![1]),
    ]);
    for _ in 0..50 {
        let composition = parameters_to_composition(&params).unwrap();
        let first = &composition.get(0).get(0).1;
        assert!(first == &vec![60] || first == &vec![61]);
        let second = &composition.get(0).get(1).1;
        assert!(!second.is_empty());
        assert!(second.iter().all(|p| 61 <= *p && *p <= 73));
    }
    params.chords = None;
    let composition = parameters_to_composition(&params).unwrap();
    assert_eq!(composition.get(0).get(0).1, Vec::<u8>::new());
}

#[test]
fn missing_and_empty_pattern_lists_are_refused() {
    let mut params = CompositionParameters::new();
    assert_eq!(
        parameters_to_composition(&params).err(),
        Some(FailResult::NoPatterns)
    );
    params.patterns = Some(vec![]);
    assert_eq!(
        parameters_to_composition(&params).err(),
        Some(FailResult::EmptyPatterns)
    );
    params.patterns = Some(vec![
        pattern(None, vec![]),
        PatternParameters {
            name: None,
            master: Some(MasterParameters {
                key: None,
                time: None,
                signature: Some((0, 3)),
            }),
            pattern: None,
        },
    ]);
    assert_eq!(
        parameters_to_composition(&params).err(),
        Some(FailResult::NoPatterns)
    );
}

#[test]
fn invalid_time_signature_is_refused() {
    for signature in [(0, 4), (4, 0), (4, 3), (4, 128), (3, 1)] {
        let mut params = description(vec![pattern(None, vec![event(0, 0, 0, "MAJOR", 0)])]);
        params.master = Some(MasterParameters {
            key: None,
            time: None,
            signature: Some(signature),
        });
        assert_eq!(
            parameters_to_composition(&params).err(),
            Some(FailResult::TimeSignature(TimeSignature::new(
                signature.0,
                signature.1
            )))
        );
    }
}

#[test]
fn time_reversal_is_reported_at_its_index() {
    let params = description(vec![pattern(
        None,
        vec![event(1, 3, 1, "MAJOR", 0), event(1, 2, 1, "MINOR", 0)],
    )]);
    assert_eq!(
        parameters_to_composition(&params).err(),
        Some(FailResult::TimeReverse(
            MusicTime::new(1, 2, 1),
            1,
            "MINOR".to_string()
        ))
    );
}

#[test]
fn beat_past_the_numerator_is_unreachable() {
    let params = description(vec![pattern(None, vec![event(1, 9, 1, "MAJOR", 0)])]);
    assert_eq!(
        parameters_to_composition(&params).err(),
        Some(FailResult::UnreachableTime(
            MusicTime::new(1, 9, 1),
            0,
            "MAJOR".to_string()
        ))
    );
    let params = description(vec![pattern(
        None,
        vec![event(1, 4, 8, "MAJOR", 0), event(2, 1, 1, "MAJOR", 0)],
    )]);
    assert!(parameters_to_composition(&params).is_ok());
}

#[test]
fn the_first_fault_ends_the_compilation() {
    let params = description(vec![
        pattern(None, vec![event(1, 1, 1, "MAJOR", 0)]),
        pattern(
            None,
            vec![
                event(2, 1, 1, "a", 0),
                event(1, 1, 1, "b", 0),
                event(1, 1, 9, "c", 0),
                event(1, 1, 9, "d", 0),
            ],
        ),
        pattern(None, vec![event(1, 1, 1, "MAJOR", 0)]),
        PatternParameters {
            name: None,
            master: None,
            pattern: None,
        },
    ]);
    assert_eq!(
        parameters_to_composition(&params).err(),
        Some(FailResult::TimeReverse(
            MusicTime::new(1, 1, 1),
            1,
            "b".to_string()
        ))
    );
}

#[test]
fn times_at_high_bars_and_beats_are_ordered_part_by_part() {
    let mut params = description(vec![pattern(
        None,
        vec![
            event(1, 2, 8, "MAJOR", 0),
            event(1, 12, 1, "MAJOR", 0),
            event(700, 1, 1, "MAJOR", 0),
            event(65535, 12, 8, "MAJOR", 0),
        ],
    )]);
    params.master = Some(MasterParameters {
        key: None,
        time: None,
        signature: Some((12, 8)),
    });
    let composition = parameters_to_composition(&params).unwrap();
    assert_eq!(composition.get(0).len(), 4);
    assert!(composition.is_valid());
}
