use chord_composer::music_time::MusicTime;
use chord_composer::performance::performance_engine::{
    notify, sample_index, Action, PerformanceEngine, PerformanceState, Phase,
};
use chord_composer::theory::composition::{Composition, Pattern, PatternEvent};
use chord_composer::time_signature::TimeSignature;
use chord_composer::{find_pattern_index, FailResult};
use music_timer::music_timer_engine::MusicTimerState;

struct Performance<'a, State: PerformanceState> {
    composition: &'a Composition,
    engine: PerformanceEngine<'a>,
    state: &'a mut State,
}

impl<'a, State: PerformanceState> Performance<'a, State> {
    fn new(
        composition: &'a Composition,
        state: &'a mut State,
    ) -> Result<Performance<'a, State>, FailResult> {
        Ok(Performance {
            composition,
            engine: PerformanceEngine::new(composition)?,
            state,
        })
    }

    fn set_metronome_enabled(&mut self, is_enabled: bool) {
        self.engine.set_metronome_enabled(is_enabled);
    }

    fn perform(&mut self, actions: Vec<Action>) {
        for action in &actions {
            notify(self.composition, self.state, action);
        }
    }

    fn run(&mut self) {
        self.run_from(&MusicTime::default(), 0);
    }

    fn run_from(&mut self, start_time: &MusicTime, starting_pattern_index: usize) {
        let actions = self.engine.start(start_time, starting_pattern_index);
        self.perform(actions);
        while !self.engine.is_completed() {
            let pattern = self.composition.get(self.engine.get_current_pattern());
            let mut timer = music_timer::create_performance_engine(
                pattern.get_time_signature().get_numerator(),
                pattern.get_time_signature().get_denominator(),
                pattern.get_bpm() as f32,
            );
            timer.set_music_timer(music_timer::music_time::MusicTime::new(
                start_time.get_bar(),
                start_time.get_beat(),
                start_time.get_beat_interval(),
            ));
            while self.engine.is_playing() {
                timer.pulse(self);
                std::hint::spin_loop();
            }
            let actions = self.engine.end_pattern();
            self.perform(actions);
        }
    }
}

fn library_time(time: &music_timer::music_time::MusicTime) -> MusicTime {
    MusicTime::new(time.get_bar(), time.get_beat(), time.get_beat_interval())
}

impl<'a, State: PerformanceState> MusicTimerState for Performance<'a, State> {
    fn on_beat_interval(&mut self, current_time: &music_timer::music_time::MusicTime) {
        let actions = self.engine.on_beat_interval(&library_time(current_time));
        self.perform(actions);
    }

    fn on_beat(&mut self, current_time: &music_timer::music_time::MusicTime) {
        let actions = self.engine.on_beat(&library_time(current_time));
        self.perform(actions);
    }

    fn on_bar(&mut self, current_time: &music_timer::music_time::MusicTime) {
        let actions = self.engine.on_bar(&library_time(current_time));
        self.perform(actions);
    }
}

#[test]
fn test_performance_engine() {
    struct MyState {
        callback_calls: u8,
        current_time: MusicTime,
    }

    impl PerformanceState for MyState {
        fn on_ready(&mut self, composition: &Composition) {
            self.callback_calls += 1;
            assert_eq!(composition.get_name(), "test compo");
        }
        fn on_beat_interval_change(&mut self, current_time: &MusicTime) {
            self.callback_calls += 1;
            self.current_time = current_time.clone();
            println!("on_beat_interval_change: {:?}", current_time);
        }
        fn on_beat_change(&mut self, current_time: &MusicTime) {
            self.callback_calls += 1;
            println!("on_beat_change: {:?}", current_time);
        }
        fn on_bar_change(&mut self, current_time: &MusicTime) {
            self.callback_calls += 1;
            println!("on_bar_change: {:?}", current_time);
        }
        fn on_event(&mut self, event: &PatternEvent) {
            self.callback_calls += 1;

            let (time, notes) = event;

            if time == &MusicTime::new(1, 3, 1) {
                let test_notes: Vec<u8> = Vec::new();
                assert_eq!(*notes, test_notes);
            }
            println!("event: {:?}", event);
        }
        fn on_pattern_playback_begin(&mut self, pattern: &Pattern) {
            self.callback_calls += 1;

            if self.callback_calls < 80 {
                assert_eq!(pattern.get_name(), "pattern_z");
                assert_eq!(pattern.get_time_signature(), TimeSignature::default());
                assert_eq!(pattern.get_bpm(), 140);
                assert_eq!(pattern.len(), 2);
            } else {
                assert_eq!(pattern.get_name(), "pattern_y");
                assert_eq!(pattern.get_time_signature(), TimeSignature::default());
                assert_eq!(pattern.get_bpm(), 130);
                assert_eq!(pattern.len(), 2);
            }
        }
        fn on_pattern_playback_end(&mut self, pattern: &Pattern) {
            self.callback_calls += 1;
            if self.callback_calls < 119 {
                assert_eq!(pattern.get_name(), "pattern_z");
            } else {
                assert_eq!(pattern.get_name(), "pattern_y");
            }
        }
        fn on_completed(&mut self, composition: &Composition) {
            self.callback_calls += 1;
            assert_eq!(composition.get_name(), "test compo");
        }
    }

    let composition = {
        let mut composition = Composition::new("test compo");
        let mut pattern = Pattern::new("pattern_z", 140, TimeSignature::default());

        pattern.push_event(MusicTime::new(1, 3, 1), Vec::new());
        pattern.push_event(MusicTime::new(3, 1, 1), Vec::new());
        composition.push_pattern(pattern);

        let mut pattern = Pattern::new("pattern_y", 130, TimeSignature::default());

        pattern.push_event(MusicTime::new(1, 3, 1), Vec::new());
        pattern.push_event(MusicTime::new(3, 1, 1), Vec::new());
        composition.push_pattern(pattern);

        composition
    };

    let mut my_state = MyState {
        callback_calls: 0,
        current_time: MusicTime::default(),
    };

    let performance_engine = Performance::new(&composition, &mut my_state);

    match performance_engine {
        Ok(mut performance) => {
            performance.set_metronome_enabled(true);
            performance.run();
        }
        _ => assert!(false, "Cannot create performance engine"),
    }
    assert_eq!(my_state.callback_calls, 232);
    assert_eq!(my_state.current_time, MusicTime::new(3, 4, 8));
}

#[test]
fn test_performance_engine_run_from() {
    struct MyState {
        beat_interval_count: u8,
        current_time: MusicTime,
    }

    impl PerformanceState for MyState {
        fn on_ready(&mut self, _composition: &Composition) {}
        fn on_beat_interval_change(&mut self, current_time: &MusicTime) {
            self.beat_interval_count += 1;
            self.current_time = current_time.clone();
            println!("on_beat_interval_change: {:?}", current_time);
        }
        fn on_beat_change(&mut self, _current_time: &MusicTime) {}
        fn on_bar_change(&mut self, _current_time: &MusicTime) {}
        fn on_event(&mut self, _event: &PatternEvent) {}
        fn on_pattern_playback_begin(&mut self, _pattern: &Pattern) {}
        fn on_pattern_playback_end(&mut self, _pattern: &Pattern) {}
        fn on_completed(&mut self, _composition: &Composition) {}
    }

    let composition = {
        let mut composition = Composition::new("test compo");
        let mut pattern = Pattern::new("pattern_z", 140, TimeSignature::default());

        pattern.push_event(MusicTime::new(1, 3, 1), Vec::new());
        pattern.push_event(MusicTime::new(5, 1, 1), Vec::new());
        composition.push_pattern(pattern);

        composition
    };

    let mut my_state = MyState {
        beat_interval_count: 0,
        current_time: MusicTime::default(),
    };

    let performance_engine = Performance::new(&composition, &mut my_state);

    match performance_engine {
        Ok(mut performance) => {
            performance.set_metronome_enabled(true);
            performance.run_from(&MusicTime::new(4, 3, 5), 0);
        }
        _ => assert!(false, "Cannot create performance engine"),
    }
    assert_eq!(my_state.beat_interval_count, 44);
    assert_eq!(my_state.current_time, MusicTime::new(5, 4, 8));
}

fn two_patterns() -> Composition {
    let mut first = Pattern::new("first", 100, TimeSignature::new(3, 4));
    first.push_event(MusicTime::new(1, 1, 1), vec![60, 64, 67]);
    first.push_event(MusicTime::new(2, 1, 1), vec![]);
    first.push_event(MusicTime::new(2, 3, 8), vec![24]);
    let mut second = Pattern::new("second", 50, TimeSignature::new(2, 2));
    second.push_event(MusicTime::new(1, 2, 8), vec![107]);
    Composition::new_with_patterns("two", vec![first, second])
}

#[test]
fn engine_without_patterns_is_refused() {
    let composition = Composition::new("empty");
    assert!(matches!(
        PerformanceEngine::new(&composition),
        Err(FailResult::NoPatterns)
    ));
}

#[test]
fn seeking_sets_the_cursor_behind_the_events_before_the_time() {
    let composition = two_patterns();
    let mut engine = PerformanceEngine::new(&composition).unwrap();
    assert_eq!(engine.get_phase(), Phase::Idle);
    assert!(!engine.is_playing());
    let actions = engine.start(&MusicTime::new(2, 1, 1), 0);
    assert_eq!(actions, vec![Action::Ready, Action::PatternBegin(0)]);
    assert_eq!(engine.get_event_head(), 1);
    assert_eq!(engine.get_current_pattern(), 0);
    assert_eq!(engine.get_start_time(), MusicTime::new(2, 1, 1));
    assert!(engine.is_playing());
    assert_eq!(
        engine.on_beat_interval(&MusicTime::new(2, 1, 1)),
        vec![
            Action::BeatIntervalChange(MusicTime::new(2, 1, 1)),
            Action::Event(0, 1),
        ]
    );
    assert_eq!(engine.get_event_head(), 2);
}

#[test]
fn starting_behind_the_last_pattern_completes_at_once() {
    let composition = two_patterns();
    let mut engine = PerformanceEngine::new(&composition).unwrap();
    assert_eq!(
        engine.start(&MusicTime::default(), 2),
        vec![Action::Ready, Action::Completed]
    );
    assert!(engine.is_completed());
    assert!(!engine.is_playing());
}

#[test]
fn pulses_fire_events_and_end_the_pattern_after_its_last_bar() {
    let composition = two_patterns();
    let mut engine = PerformanceEngine::new(&composition).unwrap();
    engine.start(&MusicTime::default(), 0);
    assert_eq!(
        engine.on_beat_interval(&MusicTime::new(1, 1, 1)),
        vec![
            Action::BeatIntervalChange(MusicTime::new(1, 1, 1)),
            Action::Event(0, 0),
            Action::PlayNote(60),
            Action::PlayNote(64),
            Action::PlayNote(67),
        ]
    );
    assert_eq!(
        engine.on_beat_interval(&MusicTime::new(1, 3, 8)),
        vec![Action::BeatIntervalChange(MusicTime::new(1, 3, 8))]
    );
    assert!(engine.is_playing());
    assert_eq!(engine.get_event_head(), 1);
    assert_eq!(engine.on_beat_interval(&MusicTime::new(2, 1, 1)).len(), 2);
    assert_eq!(
        engine.on_beat_interval(&MusicTime::new(2, 3, 8)),
        vec![
            Action::BeatIntervalChange(MusicTime::new(2, 3, 8)),
            Action::Event(0, 2),
            Action::PlayNote(24),
        ]
    );
    assert_eq!(engine.get_event_head(), 3);
    assert!(engine.is_playing());
    assert_eq!(
        engine.on_beat_interval(&MusicTime::new(3, 3, 7)),
        vec![Action::BeatIntervalChange(MusicTime::new(3, 3, 7))]
    );
    assert!(engine.is_playing());
    assert_eq!(
        engine.on_beat_interval(&MusicTime::new(3, 3, 8)),
        vec![Action::BeatIntervalChange(MusicTime::new(3, 3, 8))]
    );
    assert!(!engine.is_playing());
    assert_eq!(engine.get_phase(), Phase::PatternDone);
    assert_eq!(engine.on_beat(&MusicTime::new(3, 3, 8)), vec![]);
    assert_eq!(engine.on_bar(&MusicTime::new(3, 3, 8)), vec![]);
    assert_eq!(
        engine.end_pattern(),
        vec![Action::PatternEnd(0), Action::PatternBegin(1)]
    );
    assert_eq!(engine.get_current_pattern(), 1);
    assert_eq!(engine.get_event_head(), 0);
    assert!(engine.is_playing());
    assert_eq!(
        engine.on_beat_interval(&MusicTime::new(1, 2, 8)),
        vec![
            Action::BeatIntervalChange(MusicTime::new(1, 2, 8)),
            Action::Event(1, 0),
            Action::PlayNote(107),
        ]
    );
    assert!(engine.is_playing());
    engine.on_beat_interval(&MusicTime::new(2, 2, 8));
    assert!(!engine.is_playing());
    assert_eq!(
        engine.end_pattern(),
        vec![Action::PatternEnd(1), Action::Completed]
    );
    assert!(engine.is_completed());
}

#[test]
fn metronome_marks_bars_and_the_beats_within_them() {
    let composition = two_patterns();
    let mut engine = PerformanceEngine::new(&composition).unwrap();
    engine.start(&MusicTime::default(), 0);
    let first = MusicTime::new(1, 1, 1);
    let second = MusicTime::new(1, 2, 1);
    assert_eq!(engine.on_beat(&first), vec![Action::BeatChange(first)]);
    assert_eq!(engine.on_beat(&second), vec![Action::BeatChange(second)]);
    assert_eq!(engine.on_bar(&first), vec![Action::BarChange(first)]);
    engine.set_metronome_enabled(true);
    assert_eq!(engine.on_beat(&first), vec![Action::BeatChange(first)]);
    assert_eq!(
        engine.on_beat(&second),
        vec![Action::BeatChange(second), Action::PlayMetronome(0)]
    );
    assert_eq!(
        engine.on_bar(&first),
        vec![Action::BarChange(first), Action::PlayMetronome(1)]
    );
}

#[test]
fn samples_are_counted_from_the_lowest_pitch() {
    assert_eq!(sample_index(24), 0);
    assert_eq!(sample_index(60), 36);
    assert_eq!(sample_index(107), 83);
}

#[test]
fn patterns_are_found_by_name() {
    let mut composition = two_patterns();
    composition.push_new_pattern("first".to_string(), 1, TimeSignature::default());
    assert_eq!(find_pattern_index(&composition, "first"), Ok(0));
    assert_eq!(find_pattern_index(&composition, "second"), Ok(1));
    assert_eq!(
        find_pattern_index(&composition, "First"),
        Err(FailResult::NoFoundPattern("First".to_string()))
    );
}
