use chord_composer::build_event;
use chord_composer::io::exporter::{
    can_encode, export_composition, pattern_to_midi_messages, pattern_to_midi_meta,
    time_signature_to_data, to_tempo_samples, to_tick_time, Message, MetaEvent, MidiEvent,
};
use chord_composer::music_time::MusicTime;
use chord_composer::theory::composition::{Composition, Pattern};
use chord_composer::time_signature::TimeSignature;

fn note(delta_time: u32, note: u8, velocity: u8) -> Message {
    Message::MidiEvent {
        delta_time,
        event: MidiEvent::NoteOn {
            ch: 0,
            note,
            velocity,
        },
    }
}

fn meta(event: MetaEvent, data: Vec<u8>) -> Message {
    Message::MetaEvent {
        delta_time: 0,
        event,
        data,
    }
}

#[test]
fn test_time_signature_convert() {
    let time_signature = time_signature_to_data((4, 4));
    assert_eq!(time_signature, [4, 2, 8, 24]);

    let time_signature = time_signature_to_data((2, 4));
    assert_eq!(time_signature, [2, 2, 8, 24]);
    let time_signature = time_signature_to_data((2, 2));
    assert_eq!(time_signature, [2, 1, 8, 24]);

    let time_signature = time_signature_to_data((2, 5));
    assert_eq!(time_signature, [2, 0, 8, 24]);

    let time_signature = time_signature_to_data((7, 8));
    assert_eq!(time_signature, [7, 3, 8, 24]);
}

#[test]
fn test_correct_tick_time() {
    const BEAT_INTERVAL_SAMPLE: u32 = 60;
    const BEAT_SAMPLE: u32 = BEAT_INTERVAL_SAMPLE * 8;
    assert_eq!(to_tick_time(4, 1, 1, 1), 0);
    assert_eq!(to_tick_time(4, 1, 2, 1), BEAT_SAMPLE);
    assert_eq!(to_tick_time(4, 1, 3, 1), BEAT_SAMPLE * 2);
    assert_eq!(to_tick_time(4, 1, 4, 1), BEAT_SAMPLE * 3);
    assert_eq!(to_tick_time(4, 2, 1, 1), BEAT_SAMPLE * 4);
    assert_eq!(to_tick_time(4, 2, 2, 1), BEAT_SAMPLE * 5);
    assert_eq!(to_tick_time(4, 2, 3, 1), BEAT_SAMPLE * 6);
    assert_eq!(to_tick_time(4, 2, 4, 1), BEAT_SAMPLE * 7);
    assert_eq!(to_tick_time(4, 2, 5, 1), BEAT_SAMPLE * 8);

    assert_eq!(to_tick_time(3, 1, 1, 1), 0);
    assert_eq!(to_tick_time(3, 1, 2, 1), BEAT_SAMPLE);
    assert_eq!(to_tick_time(3, 1, 3, 1), BEAT_SAMPLE * 2);
    assert_eq!(to_tick_time(3, 2, 1, 1), BEAT_SAMPLE * 3);
    assert_eq!(to_tick_time(3, 2, 2, 1), BEAT_SAMPLE * 4);
    assert_eq!(to_tick_time(3, 2, 3, 1), BEAT_SAMPLE * 5);
    assert_eq!(to_tick_time(3, 3, 1, 1), BEAT_SAMPLE * 6);
    assert_eq!(to_tick_time(3, 3, 2, 1), BEAT_SAMPLE * 7);
    assert_eq!(to_tick_time(3, 3, 3, 1), BEAT_SAMPLE * 8);

    assert_eq!(to_tick_time(4, 1, 1, 1), 0);
    assert_eq!(to_tick_time(4, 1, 1, 2), BEAT_INTERVAL_SAMPLE);
    assert_eq!(to_tick_time(4, 1, 1, 3), BEAT_INTERVAL_SAMPLE * 2);
    assert_eq!(to_tick_time(4, 1, 1, 4), BEAT_INTERVAL_SAMPLE * 3);
    assert_eq!(to_tick_time(4, 1, 1, 5), BEAT_INTERVAL_SAMPLE * 4);
    assert_eq!(to_tick_time(4, 1, 1, 6), BEAT_INTERVAL_SAMPLE * 5);
    assert_eq!(to_tick_time(4, 1, 1, 7), BEAT_INTERVAL_SAMPLE * 6);
    assert_eq!(to_tick_time(4, 1, 1, 8), BEAT_INTERVAL_SAMPLE * 7);
    assert_eq!(to_tick_time(4, 1, 2, 1), BEAT_INTERVAL_SAMPLE * 8);
    assert_eq!(to_tick_time(4, 1, 2, 2), BEAT_INTERVAL_SAMPLE * 9);
    assert_eq!(to_tick_time(4, 1, 2, 3), BEAT_INTERVAL_SAMPLE * 10);
    assert_eq!(to_tick_time(4, 1, 2, 4), BEAT_INTERVAL_SAMPLE * 11);
    assert_eq!(to_tick_time(4, 1, 2, 5), BEAT_INTERVAL_SAMPLE * 12);
    assert_eq!(to_tick_time(4, 1, 2, 6), BEAT_INTERVAL_SAMPLE * 13);
    assert_eq!(to_tick_time(4, 1, 2, 7), BEAT_INTERVAL_SAMPLE * 14);
    assert_eq!(to_tick_time(4, 1, 2, 8), BEAT_INTERVAL_SAMPLE * 15);
}

#[test]
fn test_event_delta() {
    let mut total_time = 0;

    let mut to_delta_time = |bar: u16, beat: u8, beat_interval: u8| -> u32 {
        let delta_time = to_tick_time(4, bar, beat, beat_interval) - total_time;
        total_time = to_tick_time(4, bar, beat, beat_interval);
        delta_time
    };

    assert_eq!(to_delta_time(1, 1, 1), 0);
    assert_eq!(to_delta_time(1, 2, 1), 480);
    assert_eq!(to_delta_time(2, 1, 1), 1440);
    assert_eq!(to_delta_time(2, 2, 1), 480);
    assert_eq!(to_delta_time(3, 1, 1), 1440);
    assert_eq!(to_delta_time(3, 1, 2), 60);
    assert_eq!(to_delta_time(3, 1, 3), 60);
    assert_eq!(to_delta_time(3, 1, 6), 180);
}

#[test]
fn a_bar_is_numerator_times_480_ticks_long() {
    for numerator in 1..=255u8 {
        for bar in [2u16, 3, 17, 1000] {
            assert_eq!(
                to_tick_time(numerator, bar, 1, 1) - to_tick_time(numerator, bar - 1, 1, 1),
                numerator as u32 * 480
            );
        }
    }
    assert_eq!(to_tick_time(255, 100, 255, 8), 99 * 255 * 480 + 254 * 480 + 420);
}

#[test]
fn tempo_is_rounded_to_the_nearest_microsecond() {
    assert_eq!(to_tempo_samples(120), 500_000);
    assert_eq!(to_tempo_samples(128), 468_750);
    assert_eq!(to_tempo_samples(69), 869_565);
    assert_eq!(to_tempo_samples(7), 8_571_429);
    assert_eq!(to_tempo_samples(1), 60_000_000);
    assert_eq!(to_tempo_samples(255), 235_294);
    assert_eq!(to_tempo_samples(0), u32::MAX);
}

#[test]
fn first_track_holds_tempo_and_signature() {
    let pattern = Pattern::new("part_a", 128, TimeSignature::new(3, 4));
    assert_eq!(
        pattern_to_midi_meta(&pattern),
        vec![
            meta(MetaEvent::SetTempo, vec![0x07, 0x27, 0x0E]),
            meta(MetaEvent::TimeSignature, vec![3, 2, 8, 24]),
            meta(MetaEvent::EndOfTrack, vec![]),
            Message::TrackChange,
        ]
    );
    let pattern = Pattern::new("part_b", 69, TimeSignature::new(4, 8));
    assert_eq!(
        pattern_to_midi_meta(&pattern)[..2],
        [
            meta(MetaEvent::SetTempo, vec![0x0D, 0x44, 0xBD]),
            meta(MetaEvent::TimeSignature, vec![4, 3, 8, 24]),
        ]
    );
    let pattern = Pattern::new("still", 0, TimeSignature::new(4, 64));
    assert_eq!(
        pattern_to_midi_meta(&pattern)[..2],
        [
            meta(MetaEvent::SetTempo, vec![0xFF, 0xFF, 0xFF]),
            meta(MetaEvent::TimeSignature, vec![4, 6, 8, 24]),
        ]
    );
}

#[test]
fn single_major_chord_sounds_for_one_bar() {
    let pattern = Pattern::new_with_events(
        "only",
        120,
        TimeSignature::new(4, 4),
        vec![build_event(1, 1, 1, vec![0, 4, 7], 0)],
    );
    assert!(pattern.is_valid());
    assert!(can_encode(&pattern));
    assert_eq!(
        pattern_to_midi_messages(&pattern),
        vec![
            meta(MetaEvent::SequenceOrTrackName, b"only".to_vec()),
            note(0, 60, 64),
            note(0, 64, 64),
            note(0, 67, 64),
            note(4 * 480, 60, 0),
            note(0, 64, 0),
            note(0, 67, 0),
            meta(MetaEvent::EndOfTrack, vec![]),
        ]
    );
}

#[test]
fn notes_are_held_until_the_next_event() {
    let mut pattern = Pattern::new("légato", 100, TimeSignature::new(3, 4));
    pattern.push_event(MusicTime::new(1, 2, 1), vec![60, 64]);
    pattern.push_event(MusicTime::new(1, 3, 5), vec![]);
    pattern.push_event(MusicTime::new(2, 1, 1), vec![]);
    pattern.push_event(MusicTime::new(2, 2, 1), vec![62]);
    pattern.push_event(MusicTime::new(4, 3, 8), vec![65]);
    assert!(pattern.is_valid());
    assert_eq!(
        pattern_to_midi_messages(&pattern),
        vec![
            meta(MetaEvent::SequenceOrTrackName, "légato".as_bytes().to_vec()),
            note(480, 60, 64),
            note(0, 64, 64),
            note(480 + 240, 60, 0),
            note(0, 64, 0),
            note(3 * 480 + 480 - (480 + 480 + 240), 62, 64),
            note(3 * 3 * 480 + 2 * 480 + 420 - (3 * 480 + 480), 62, 0),
            note(0, 65, 64),
            note(4 * 3 * 480 - (3 * 3 * 480 + 2 * 480 + 420), 65, 0),
            meta(MetaEvent::EndOfTrack, vec![]),
        ]
    );
}

#[test]
fn pattern_without_sounding_events_has_an_empty_track() {
    let mut pattern = Pattern::new("rest", 100, TimeSignature::default());
    assert_eq!(
        pattern_to_midi_messages(&pattern),
        vec![
            meta(MetaEvent::SequenceOrTrackName, b"rest".to_vec()),
            meta(MetaEvent::EndOfTrack, vec![]),
        ]
    );
    pattern.push_event(MusicTime::new(3, 1, 1), vec![]);
    assert_eq!(pattern_to_midi_messages(&pattern).len(), 2);
}

#[test]
fn ticks_past_32_bits_are_not_encodable() {
    let mut pattern = Pattern::new("long", 100, TimeSignature::new(255, 4));
    pattern.push_event(MusicTime::new(35_000, 1, 1), vec![60]);
    assert!(can_encode(&pattern));
    pattern.push_event(MusicTime::new(35_089, 1, 1), vec![60]);
    assert!(can_encode(&pattern));
    pattern.push_event(MusicTime::new(35_090, 1, 1), vec![60]);
    assert!(!can_encode(&pattern));
    let mut pattern = Pattern::new("last bar", 100, TimeSignature::new(4, 4));
    pattern.push_event(MusicTime::new(65_534, 4, 8), vec![60]);
    assert!(can_encode(&pattern));
    assert_eq!(
        pattern_to_midi_messages(&pattern)[1..3],
        [note(65_533 * 1920 + 1440 + 420, 60, 64), note(60, 60, 0)]
    );
    pattern.push_event(MusicTime::new(65_535, 1, 1), vec![60]);
    assert!(!can_encode(&pattern));
}

#[test]
fn composition_is_exported_pattern_by_pattern() {
    let composition = Composition::new_with_patterns(
        "song",
        vec![
            Pattern::new_with_events(
                "a",
                120,
                TimeSignature::default(),
                vec![build_event(1, 1, 1, vec![0], 0)],
            ),
            Pattern::new_with_events(
                "b",
                60,
                TimeSignature::new(3, 8),
                vec![
                    build_event(2, 1, 1, vec![1], 0),
                    build_event(1, 1, 1, vec![0, 12], 0),
                ],
            ),
        ],
    );
    assert!(composition.is_valid());
    let scores = export_composition(&composition);
    assert_eq!(scores.len(), 2);
    assert_eq!(scores[0].0, "a");
    assert_eq!(scores[1].0, "b");
    let mut first = pattern_to_midi_meta(composition.get(0));
    first.extend(pattern_to_midi_messages(composition.get(0)));
    assert_eq!(scores[0].1, first);
    assert_eq!(
        scores[1].1,
        vec![
            meta(MetaEvent::SetTempo, vec![0x0F, 0x42, 0x40]),
            meta(MetaEvent::TimeSignature, vec![3, 3, 8, 24]),
            meta(MetaEvent::EndOfTrack, vec![]),
            Message::TrackChange,
            meta(MetaEvent::SequenceOrTrackName, b"b".to_vec()),
            note(0, 60, 64),
            note(0, 72, 64),
            note(3 * 480, 60, 0),
            note(0, 72, 0),
            note(0, 61, 64),
            note(3 * 480, 61, 0),
            meta(MetaEvent::EndOfTrack, vec![]),
        ]
    );
}
