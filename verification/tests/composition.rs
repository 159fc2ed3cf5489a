use chord_composer::music_time::MusicTime;
use chord_composer::theory::composition::{Composition, Pattern};
use chord_composer::time_signature::TimeSignature;

#[test]
fn test_create() {
    let mut compo = Composition::new("test");
    assert_eq!(compo.get_name(), "test");

    compo.push_new_pattern("a".to_string(), 120, TimeSignature::default());
    compo
        .get_mut(0)
        .push_event(MusicTime::new(1, 1, 1), vec![0, 1, 2]);
    compo
        .get_mut(0)
        .push_event(MusicTime::new(2, 1, 1), vec![2, 3, 4]);

    compo.push_new_pattern("a".to_string(), 54, TimeSignature::new(3, 4));
    compo
        .get_mut(1)
        .push_event(MusicTime::new(1, 3, 1), vec![51, 51, 52]);
    compo
        .get_mut(1)
        .push_event(MusicTime::new(2, 4, 1), vec![52, 53, 54]);

    assert_eq!(compo.len(), 2);
    assert_eq!(compo.get(0).len(), 2);
    assert_eq!(compo.get(1).len(), 2);

    assert_eq!(compo.get(0).get_bpm(), 120);
    assert_eq!(compo.get(0).get_time_signature(), TimeSignature::new(4, 4));

    assert_eq!(compo.get(1).get_bpm(), 54);
    assert_eq!(compo.get(1).get_time_signature(), TimeSignature::new(3, 4));

    let (time, notes) = compo.get(0).get(0);
    assert_eq!(time, &MusicTime::new(1, 1, 1));
    assert_eq!(notes, &vec![0, 1, 2]);

    let (time, notes) = compo.get(0).get(1);
    assert_eq!(time, &MusicTime::new(2, 1, 1));
    assert_eq!(notes, &vec![2, 3, 4]);

    let (time, notes) = compo.get(1).get(0);
    assert_eq!(time, &MusicTime::new(1, 3, 1));
    assert_eq!(notes, &vec![51, 51, 52]);

    let (time, notes) = compo.get(1).get(1);
    assert_eq!(time, &MusicTime::new(2, 4, 1));
    assert_eq!(notes, &vec![52, 53, 54]);
}

#[test]
fn test_find_next_event() {
    let pattern = Pattern::new_with_events(
        "test pattern",
        85,
        TimeSignature::default(),
        vec![
            (MusicTime::new(1, 1, 1), vec![0]),
            (MusicTime::new(2, 1, 1), vec![0]),
            (MusicTime::new(3, 1, 1), vec![0]),
            (MusicTime::new(3, 4, 1), vec![0]),
            (MusicTime::new(4, 1, 1), vec![0]),
        ],
    );

    let time = MusicTime::new(3, 3, 2);
    let result = Pattern::find_next_event_index(&pattern, &time);
    assert_eq!(result, 3);
}

#[test]
fn seeking_skips_the_events_before_the_time() {
    let pattern = Pattern::new_with_events(
        "seek",
        100,
        TimeSignature::default(),
        vec![
            (MusicTime::new(1, 1, 1), vec![60]),
            (MusicTime::new(2, 1, 1), vec![62]),
        ],
    );
    assert_eq!(pattern.find_next_event_index(&MusicTime::new(1, 1, 1)), 0);
    assert_eq!(pattern.find_next_event_index(&MusicTime::new(1, 1, 2)), 1);
    assert_eq!(pattern.find_next_event_index(&MusicTime::new(2, 1, 1)), 1);
    assert_eq!(pattern.find_next_event_index(&MusicTime::new(2, 1, 2)), 2);
    assert_eq!(
        Pattern::new("none", 1, TimeSignature::default())
            .find_next_event_index(&MusicTime::new(9, 1, 1)),
        0
    );
}

#[test]
fn events_are_sorted_by_time_and_keep_their_order_at_equal_times() {
    let pattern = Pattern::new_with_events(
        "sorted",
        100,
        TimeSignature::new(12, 8),
        vec![
            (MusicTime::new(2, 1, 1), vec![1]),
            (MusicTime::new(1, 12, 1), vec![2]),
            (MusicTime::new(1, 2, 8), vec![3]),
            (MusicTime::new(2, 1, 1), vec![4]),
            (MusicTime::new(1, 2, 8), vec![5]),
            (MusicTime::new(1, 1, 1), vec![6]),
        ],
    );
    assert_eq!(
        pattern.get_events(),
        &vec![
            (MusicTime::new(1, 1, 1), vec![6]),
            (MusicTime::new(1, 2, 8), vec![3]),
            (MusicTime::new(1, 2, 8), vec![5]),
            (MusicTime::new(1, 12, 1), vec![2]),
            (MusicTime::new(2, 1, 1), vec![1]),
            (MusicTime::new(2, 1, 1), vec![4]),
        ]
    );
    assert_eq!(pattern.get_name(), "sorted");
    assert_eq!(pattern.get_bpm(), 100);
    assert!(!pattern.is_valid());
}

#[test]
fn times_are_ordered_by_bar_then_beat_then_interval() {
    assert!(MusicTime::new(1, 12, 8).precedes(&MusicTime::new(2, 1, 1)));
    assert!(MusicTime::new(1, 2, 8).precedes(&MusicTime::new(1, 12, 1)));
    assert!(MusicTime::new(1, 1, 1).precedes(&MusicTime::new(1, 1, 2)));
    assert!(!MusicTime::new(1, 1, 1).precedes(&MusicTime::new(1, 1, 1)));
    assert!(!MusicTime::new(700, 1, 1).precedes(&MusicTime::new(699, 200, 200)));
    assert!(MusicTime::new(1, 1, 1).same_as(&MusicTime::default()));
    assert!(MusicTime::new(1, 12, 8) < MusicTime::new(2, 1, 1));
    assert_eq!(MusicTime::new(3, 2, 1).get_bar(), 3);
    assert_eq!(MusicTime::new(3, 2, 1).get_beat(), 2);
    assert_eq!(MusicTime::new(3, 2, 1).get_beat_interval(), 1);
}

#[test]
fn time_signature_is_valid_with_a_beat_and_a_power_of_two() {
    for denominator in 0..=255u8 {
        let expected = [2, 4, 8, 16, 32, 64].contains(&denominator);
        assert_eq!(TimeSignature::new(3, denominator).is_valid(), expected);
        assert!(!TimeSignature::new(0, denominator).is_valid());
    }
    assert_eq!(TimeSignature::default().as_tuple(), (4, 4));
    assert_eq!(TimeSignature::new(7, 8).get_numerator(), 7);
    assert_eq!(TimeSignature::new(7, 8).get_denominator(), 8);
}

#[test]
fn validity_of_a_pattern() {
    let mut pattern = Pattern::new("p", 100, TimeSignature::new(3, 4));
    assert!(pattern.is_valid());
    pattern.push_event(MusicTime::new(1, 3, 8), vec![24, 107]);
    pattern.push_event(MusicTime::new(2, 1, 1), vec![]);
    assert!(pattern.is_valid());
    let mut late = Pattern::new("p", 100, TimeSignature::new(3, 4));
    late.push_event(MusicTime::new(1, 4, 1), vec![]);
    assert!(!late.is_valid());
    let mut low = Pattern::new("p", 100, TimeSignature::new(3, 4));
    low.push_event(MusicTime::new(1, 1, 1), vec![60, 23]);
    assert!(!low.is_valid());
    let mut twice = Pattern::new("p", 100, TimeSignature::new(3, 4));
    twice.push_event(MusicTime::new(1, 1, 1), vec![]);
    twice.push_event(MusicTime::new(1, 1, 1), vec![]);
    assert!(!twice.is_valid());
    assert!(!Pattern::new("p", 100, TimeSignature::new(3, 5)).is_valid());
    let mut composition = Composition::new_with_patterns("c", vec![pattern]);
    assert!(composition.is_valid());
    composition.push_pattern(low);
    assert!(!composition.is_valid());
    assert_eq!(composition.get_patterns().len(), 2);
}
