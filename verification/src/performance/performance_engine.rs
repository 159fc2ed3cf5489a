//! The performance scheduler: a state machine that walks the events of a
//! composition, pattern by pattern, as the pulses of a clock come in.
//!
//! The scheduler holds no clock and makes no sound. Each step takes what the
//! clock reports and says what is to be done: which callbacks of the host
//! are due, in order, and which samples are to be played.

use crate::music_time::{MusicTime, BEAT_INTERVALS_PER_BEAT};
use crate::theory::composition::{
    leading_before, Composition, CompositionView, EventView, Pattern, PatternEvent, PatternView,
};
use crate::theory::notes::MIN_PITCH;
use crate::FailResult;
use vstd::prelude::*;

verus! {

/// The sample of the metronome that marks a beat within a bar.
pub const METRONOME_BEAT: usize = 0;

/// The sample of the metronome that marks the start of a bar.
pub const METRONOME_BAR: usize = 1;

/// A callback of the host together with what it is handed, as plain
/// values.
pub enum Notice {
    Ready(CompositionView),
    BeatIntervalChange(MusicTime),
    BeatChange(MusicTime),
    BarChange(MusicTime),
    Event(EventView),
    PatternBegin(PatternView),
    PatternEnd(PatternView),
    Completed(CompositionView),
}

/// The callbacks a host receives while a composition is performed.
pub trait PerformanceState {
    /// Whether `after` is a state in which the host may be once it has
    /// taken `notice` in this state. Each host says for itself what its
    /// callbacks do. A host that says nothing may be in any state
    /// afterwards.
    open spec fn takes(&self, notice: Notice, after: &Self) -> bool {
        true
    }

    fn on_ready(&mut self, composition: &Composition)
        ensures
            old(self).takes(Notice::Ready(composition@), final(self)),
    ;

    fn on_beat_interval_change(&mut self, current_time: &MusicTime)
        ensures
            old(self).takes(Notice::BeatIntervalChange(*current_time), final(self)),
    ;

    fn on_beat_change(&mut self, current_time: &MusicTime)
        ensures
            old(self).takes(Notice::BeatChange(*current_time), final(self)),
    ;

    fn on_bar_change(&mut self, current_time: &MusicTime)
        ensures
            old(self).takes(Notice::BarChange(*current_time), final(self)),
    ;

    fn on_event(&mut self, event: &PatternEvent)
        ensures
            old(self).takes(Notice::Event((event.0, event.1@)), final(self)),
    ;

    fn on_pattern_playback_begin(&mut self, pattern: &Pattern)
        ensures
            old(self).takes(Notice::PatternBegin(pattern@), final(self)),
    ;

    fn on_pattern_playback_end(&mut self, pattern: &Pattern)
        ensures
            old(self).takes(Notice::PatternEnd(pattern@), final(self)),
    ;

    fn on_completed(&mut self, composition: &Composition)
        ensures
            old(self).takes(Notice::Completed(composition@), final(self)),
    ;
}

/// One thing to be done after a step of the scheduler.
#[derive(Clone, Copy, Debug, PartialEq, Eq, Structural)]
pub enum Action {
    /// The composition is ready to be performed.
    Ready,
    /// The pattern at this index begins.
    PatternBegin(usize),
    /// The pattern at this index has ended.
    PatternEnd(usize),
    /// The last pattern has ended.
    Completed,
    /// The clock has come to a new beat interval.
    BeatIntervalChange(MusicTime),
    /// The clock has come to a new beat.
    BeatChange(MusicTime),
    /// The clock has come to a new bar.
    BarChange(MusicTime),
    /// The event at the second index of the pattern at the first is due.
    Event(usize, usize),
    /// The instrument sounds this pitch.
    PlayNote(u8),
    /// The metronome plays the sample at this index.
    PlayMetronome(usize),
}

/// Where a performance stands.
#[derive(Clone, Copy, Debug, PartialEq, Eq, Structural)]
pub enum Phase {
    /// Not started.
    Idle,
    /// A pattern is being played.
    Playing,
    /// The pattern has been played to its end.
    PatternDone,
    /// Every pattern has been played.
    Completed,
}

/// The state of a scheduler as plain values.
pub struct EngineView {
    pub composition: CompositionView,
    pub phase: Phase,
    pub current_pattern: int,
    pub event_head: int,
    pub start_time: MusicTime,
    pub is_metronome_enabled: bool,
}

/// One action for each pitch of an event.
pub open spec fn note_actions(pitches: Seq<u8>) -> Seq<Action> {
    Seq::new(pitches.len(), |k: int| Action::PlayNote(pitches[k]))
}

impl EngineView {
    /// The pattern index and the cursor lie within the composition.
    pub open spec fn wf(&self) -> bool {
        &&& 0 <= self.current_pattern < self.composition.patterns.len()
        &&& 0 <= self.event_head <= self.pattern().events.len()
    }

    /// The pattern being played.
    pub open spec fn pattern(&self) -> PatternView {
        self.composition.patterns[self.current_pattern]
    }

    /// Whether the event at the cursor is due at `time`.
    pub open spec fn fires(&self, time: MusicTime) -> bool {
        self.event_head < self.pattern().events.len() && self.pattern().events[self.event_head].0
            == time
    }

    /// Whether the pattern ends with the pulse at `time`: every event was
    /// played before this pulse, and the pulse is the last beat interval of
    /// the last beat of a bar.
    pub open spec fn ends_pattern(&self, time: MusicTime) -> bool {
        &&& self.event_head == self.pattern().events.len()
        &&& time.beat == self.pattern().signature.numerator
        &&& time.beat_interval == BEAT_INTERVALS_PER_BEAT
    }

    /// What is to be done at a pulse of the beat interval.
    pub open spec fn beat_interval_actions(&self, time: MusicTime) -> Seq<Action> {
        if self.fires(time) {
            seq![
                Action::BeatIntervalChange(time),
                Action::Event(self.current_pattern as usize, self.event_head as usize),
            ] + note_actions(self.pattern().events[self.event_head].1)
        } else {
            seq![Action::BeatIntervalChange(time)]
        }
    }

    /// The state after a pulse of the beat interval.
    pub open spec fn after_beat_interval(&self, time: MusicTime) -> EngineView {
        EngineView {
            phase: if self.ends_pattern(time) {
                Phase::PatternDone
            } else {
                Phase::Playing
            },
            event_head: if self.fires(time) {
                self.event_head + 1
            } else {
                self.event_head
            },
            ..*self
        }
    }

    /// What is to be done at a pulse of the beat.
    pub open spec fn beat_actions(&self, time: MusicTime) -> Seq<Action> {
        if self.phase != Phase::Playing {
            Seq::empty()
        } else if self.is_metronome_enabled && time.beat != 1 {
            seq![Action::BeatChange(time), Action::PlayMetronome(METRONOME_BEAT)]
        } else {
            seq![Action::BeatChange(time)]
        }
    }

    /// What is to be done at a pulse of the bar.
    pub open spec fn bar_actions(&self, time: MusicTime) -> Seq<Action> {
        if self.phase != Phase::Playing {
            Seq::empty()
        } else if self.is_metronome_enabled {
            seq![Action::BarChange(time), Action::PlayMetronome(METRONOME_BAR)]
        } else {
            seq![Action::BarChange(time)]
        }
    }

    /// The state in which the pattern at `index` begins, played from
    /// `start_time` on; the state after the last pattern where there is no
    /// pattern at `index`.
    pub open spec fn entering(&self, index: int) -> EngineView {
        if 0 <= index < self.composition.patterns.len() {
            EngineView {
                phase: Phase::Playing,
                current_pattern: index,
                event_head: leading_before(
                    self.composition.patterns[index].events,
                    self.start_time,
                ),
                ..*self
            }
        } else {
            EngineView { phase: Phase::Completed, ..*self }
        }
    }

    /// What is to be done when the pattern at `index` is entered.
    pub open spec fn entering_action(&self, index: int) -> Action {
        if 0 <= index < self.composition.patterns.len() {
            Action::PatternBegin(index as usize)
        } else {
            Action::Completed
        }
    }
}

/// Whether the indices an action holds lie within the composition.
pub open spec fn action_in_range(action: Action, composition: CompositionView) -> bool {
    match action {
        Action::PatternBegin(pattern) => pattern < composition.patterns.len(),
        Action::PatternEnd(pattern) => pattern < composition.patterns.len(),
        Action::Event(pattern, event) => pattern < composition.patterns.len() && event
            < composition.patterns[pattern as int].events.len(),
        _ => true,
    }
}

/// The index of the instrument sample that sounds a pitch.
pub fn sample_index(pitch: u8) -> (index: usize)
    requires
        pitch >= MIN_PITCH,
    ensures
        index == pitch - MIN_PITCH,
{
    (pitch - MIN_PITCH) as usize
}

/// The scheduler of one performance of a composition.
pub struct PerformanceEngine<'a> {
    composition: &'a Composition,
    phase: Phase,
    current_pattern: usize,
    event_head: usize,
    start_time: MusicTime,
    is_metronome_enabled: bool,
}

impl<'a> View for PerformanceEngine<'a> {
    type V = EngineView;

    closed spec fn view(&self) -> EngineView {
        EngineView {
            composition: self.composition@,
            phase: self.phase,
            current_pattern: self.current_pattern as int,
            event_head: self.event_head as int,
            start_time: self.start_time,
            is_metronome_enabled: self.is_metronome_enabled,
        }
    }
}

impl<'a> PerformanceEngine<'a> {
    /// A scheduler for a composition, not started, with the metronome off.
    /// A composition without patterns cannot be performed.
    pub fn new(composition: &'a Composition) -> (engine: Result<Self, FailResult>)
        ensures
            match engine {
                Ok(engine) => {
                    &&& composition@.patterns.len() > 0
                    &&& engine@ == (EngineView {
                        composition: composition@,
                        phase: Phase::Idle,
                        current_pattern: 0,
                        event_head: 0,
                        start_time: MusicTime { bar: 1, beat: 1, beat_interval: 1 },
                        is_metronome_enabled: false,
                    })
                    &&& engine@.wf()
                },
                Err(failure) => composition@.patterns.len() == 0 && failure == FailResult::NoPatterns,
            },
    {
        if composition.len() > 0 {
            Ok(
                PerformanceEngine {
                    composition,
                    phase: Phase::Idle,
                    current_pattern: 0,
                    event_head: 0,
                    start_time: MusicTime::new(1, 1, 1),
                    is_metronome_enabled: false,
                },
            )
        } else {
            Err(FailResult::NoPatterns)
        }
    }

    pub fn set_metronome_enabled(&mut self, is_enabled: bool)
        ensures
            final(self)@ == (EngineView { is_metronome_enabled: is_enabled, ..old(self)@ }),
    {
        self.is_metronome_enabled = is_enabled;
    }

    /// Whether a pattern is being played.
    pub fn is_playing(&self) -> (playing: bool)
        ensures
            playing == (self@.phase == Phase::Playing),
    {
        match self.phase {
            Phase::Playing => true,
            _ => false,
        }
    }

    /// Whether every pattern has been played.
    pub fn is_completed(&self) -> (completed: bool)
        ensures
            completed == (self@.phase == Phase::Completed),
    {
        match self.phase {
            Phase::Completed => true,
            _ => false,
        }
    }

    pub fn get_phase(&self) -> (phase: Phase)
        ensures
            phase == self@.phase,
    {
        self.phase
    }

    /// The index of the pattern being played.
    pub fn get_current_pattern(&self) -> (index: usize)
        ensures
            index == self@.current_pattern,
    {
        self.current_pattern
    }

    /// The cursor: the index of the next event of the pattern.
    pub fn get_event_head(&self) -> (index: usize)
        ensures
            index == self@.event_head,
    {
        self.event_head
    }

    /// The time from which each pattern is played.
    pub fn get_start_time(&self) -> (time: MusicTime)
        ensures
            time == self@.start_time,
    {
        self.start_time
    }

    /// Enters the pattern at `index`, or completes the performance.
    fn enter(&mut self, index: usize) -> (action: Action)
        ensures
            final(self)@ == old(self)@.entering(index as int),
            action == old(self)@.entering_action(index as int),
            action_in_range(action, old(self)@.composition),
            final(self)@.phase == Phase::Playing ==> final(self)@.wf(),
            old(self)@.wf() ==> final(self)@.wf(),
    {
        if index < self.composition.len() {
            let pattern = self.composition.get(index);
            self.event_head = pattern.find_next_event_index(&self.start_time);
            self.current_pattern = index;
            self.phase = Phase::Playing;
            Action::PatternBegin(index)
        } else {
            self.phase = Phase::Completed;
            Action::Completed
        }
    }

    /// Starts the performance at the pattern at `starting_pattern_index`.
    /// This pattern and each one after it is played from `start_time` on:
    /// the cursor skips the events that come before that time.
    pub fn start(&mut self, start_time: &MusicTime, starting_pattern_index: usize) -> (actions: Vec<
        Action,
    >)
        ensures
            final(self)@ == (EngineView { start_time: *start_time, ..old(self)@ }).entering(
                starting_pattern_index as int,
            ),
            actions@ == seq![
                Action::Ready,
                old(self)@.entering_action(starting_pattern_index as int),
            ],
            forall|i: int| 0 <= i < actions@.len() ==> action_in_range(#[trigger] actions@[i], old(self)@.composition),
            final(self)@.phase == Phase::Playing ==> final(self)@.wf(),
            old(self)@.wf() ==> final(self)@.wf(),
    {
        self.start_time = *start_time;
        let mut actions: Vec<Action> = Vec::new();
        actions.push(Action::Ready);
        let action = self.enter(starting_pattern_index);
        actions.push(action);
        actions
    }

    /// Leaves the pattern that has been played and enters the next one, or
    /// completes the performance after the last.
    pub fn end_pattern(&mut self) -> (actions: Vec<Action>)
        requires
            old(self)@.wf(),
        ensures
            final(self)@ == old(self)@.entering(old(self)@.current_pattern + 1),
            actions@ == seq![
                Action::PatternEnd(old(self)@.current_pattern as usize),
                old(self)@.entering_action(old(self)@.current_pattern + 1),
            ],
            forall|i: int| 0 <= i < actions@.len() ==> action_in_range(#[trigger] actions@[i], old(self)@.composition),
            final(self)@.phase == Phase::Playing ==> final(self)@.wf(),
            old(self)@.wf() ==> final(self)@.wf(),
    {
        let mut actions: Vec<Action> = Vec::new();
        actions.push(Action::PatternEnd(self.current_pattern));
        let count = self.composition.len();
        assert(self.current_pattern < count);
        let action = self.enter(self.current_pattern + 1);
        actions.push(action);
        actions
    }

    /// Takes a pulse of the beat interval. The host always learns of the
    /// new beat interval. Where the event at the cursor lies at this time,
    /// it is due, its pitches sound and the cursor moves on. The pattern
    /// ends where every event was played before this pulse and the pulse is
    /// the last of a bar.
    pub fn on_beat_interval(&mut self, current_time: &MusicTime) -> (actions: Vec<Action>)
        requires
            old(self)@.wf(),
        ensures
            final(self)@ == old(self)@.after_beat_interval(*current_time),
            actions@ == old(self)@.beat_interval_actions(*current_time),
            forall|i: int| 0 <= i < actions@.len() ==> action_in_range(#[trigger] actions@[i], old(self)@.composition),
            final(self)@.wf(),
    {
        let pattern = self.composition.get(self.current_pattern);
        let events_complete = self.event_head == pattern.len();
        let ends = events_complete && current_time.get_beat()
            == pattern.get_time_signature().get_numerator() && current_time.get_beat_interval()
            == BEAT_INTERVALS_PER_BEAT;
        let mut actions: Vec<Action> = Vec::new();
        actions.push(Action::BeatIntervalChange(*current_time));
        if !events_complete {
            let current_event = pattern.get(self.event_head);
            if current_time.same_as(&current_event.0) {
                actions.push(Action::Event(self.current_pattern, self.event_head));
                let ghost head = actions@;
                let ghost notes = note_actions(current_event.1@);
                let mut k: usize = 0;
                while k < current_event.1.len()
                    invariant
                        k <= current_event.1@.len(),
                        notes == note_actions(current_event.1@),
                        actions@ == head + notes.subrange(0, k as int),
                    decreases current_event.1@.len() - k,
                {
                    actions.push(Action::PlayNote(current_event.1[k]));
                    assert(actions@ =~= head + notes.subrange(0, k + 1));
                    k += 1;
                }
                assert(notes.subrange(0, k as int) =~= notes);
                assert(actions@ =~= old(self)@.beat_interval_actions(*current_time));
                self.event_head = self.event_head + 1;
            }
        }
        self.phase = if ends {
            Phase::PatternDone
        } else {
            Phase::Playing
        };
        actions
    }

    /// Takes a pulse of the beat. Nothing is done once the pattern has
    /// ended. Else the host learns of the new beat, and the metronome, where
    /// it is on, marks every beat but the first of a bar.
    pub fn on_beat(&self, current_time: &MusicTime) -> (actions: Vec<Action>)
        ensures
            actions@ == self@.beat_actions(*current_time),
    {
        let mut actions: Vec<Action> = Vec::new();
        if self.is_playing() {
            actions.push(Action::BeatChange(*current_time));
            if self.is_metronome_enabled && current_time.get_beat() != 1 {
                actions.push(Action::PlayMetronome(METRONOME_BEAT));
            }
        }
        assert(actions@ =~= self@.beat_actions(*current_time));
        actions
    }

    /// Takes a pulse of the bar. Nothing is done once the pattern has ended.
    /// Else the host learns of the new bar, and the metronome, where it is
    /// on, marks it.
    pub fn on_bar(&self, current_time: &MusicTime) -> (actions: Vec<Action>)
        ensures
            actions@ == self@.bar_actions(*current_time),
    {
        let mut actions: Vec<Action> = Vec::new();
        if self.is_playing() {
            actions.push(Action::BarChange(*current_time));
            if self.is_metronome_enabled {
                actions.push(Action::PlayMetronome(METRONOME_BAR));
            }
        }
        assert(actions@ =~= self@.bar_actions(*current_time));
        actions
    }
}

/// The callback that an action is meant for, with what the callback is
/// handed. The actions that play a sample are not for the host.
pub open spec fn notice_of(action: Action, composition: CompositionView) -> Option<Notice> {
    match action {
        Action::Ready => Some(Notice::Ready(composition)),
        Action::PatternBegin(pattern) => Some(
            Notice::PatternBegin(composition.patterns[pattern as int]),
        ),
        Action::PatternEnd(pattern) => Some(Notice::PatternEnd(composition.patterns[pattern as int])),
        Action::Completed => Some(Notice::Completed(composition)),
        Action::BeatIntervalChange(time) => Some(Notice::BeatIntervalChange(time)),
        Action::BeatChange(time) => Some(Notice::BeatChange(time)),
        Action::BarChange(time) => Some(Notice::BarChange(time)),
        Action::Event(pattern, event) => Some(
            Notice::Event(composition.patterns[pattern as int].events[event as int]),
        ),
        Action::PlayNote(_) => None,
        Action::PlayMetronome(_) => None,
    }
}

/// Hands an action to the callback of the host that it is meant for: the
/// host takes the notice of that action, once. The actions that play a
/// sample are not for the host and leave it as it is.
pub fn notify<State: PerformanceState>(
    composition: &Composition,
    state: &mut State,
    action: &Action,
)
    requires
        action_in_range(*action, composition@),
    ensures
        match notice_of(*action, composition@) {
            Some(notice) => old(state).takes(notice, final(state)),
            None => *final(state) == *old(state),
        },
{
    match action {
        Action::Ready => state.on_ready(composition),
        Action::PatternBegin(pattern) => state.on_pattern_playback_begin(composition.get(*pattern)),
        Action::PatternEnd(pattern) => state.on_pattern_playback_end(composition.get(*pattern)),
        Action::Completed => state.on_completed(composition),
        Action::BeatIntervalChange(time) => state.on_beat_interval_change(time),
        Action::BeatChange(time) => state.on_beat_change(time),
        Action::BarChange(time) => state.on_bar_change(time),
        Action::Event(pattern, event) => state.on_event(composition.get(*pattern).get(*event)),
        Action::PlayNote(_) => {},
        Action::PlayMetronome(_) => {},
    }
}

} // verus!
