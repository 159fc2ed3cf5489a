//! Compiles chord-progression arrangements into a validated timeline of
//! pitch events, schedules that timeline for playback and encodes it as a
//! stream of score messages.

pub mod compiler;
pub mod io;
pub mod music_time;
pub mod performance;
pub mod text;
pub mod theory;
pub mod time_signature;

pub use compiler::parameters_to_composition;

use music_time::MusicTime;
use theory::chords::{chord_keywords, chord_pitches, chord_to_string_array, IntervalChord};
use theory::composition::{Composition, CompositionView, PatternEvent};
use theory::notes::NOTES_IN_OCTAVE;
use time_signature::TimeSignature;
use vstd::prelude::*;

verus! {

/// The octave, counted from the lowest pitch, in which chords are played.
pub const PLAYBACK_OCTAVE: i8 = 3;

/// The ways in which an operation can fail.
#[derive(Debug, PartialEq)]
pub enum FailResult {
    Deserialize,
    ExportMIDI,
    ExportTemplate,
    NoPatterns,
    NoFoundPattern(String),
    EmptyPatterns,
    TimeReverse(MusicTime, usize, String),
    UnreachableTime(MusicTime, usize, String),
    TimeSignature(TimeSignature),
    LoadSampler,
}

/// A failure as plain values.
pub enum FailView {
    Deserialize,
    ExportMIDI,
    ExportTemplate,
    NoPatterns,
    NoFoundPattern(Seq<char>),
    EmptyPatterns,
    TimeReverse(MusicTime, int, Seq<char>),
    UnreachableTime(MusicTime, int, Seq<char>),
    TimeSignature(TimeSignature),
    LoadSampler,
}

impl View for FailResult {
    type V = FailView;

    open spec fn view(&self) -> FailView {
        match self {
            FailResult::Deserialize => FailView::Deserialize,
            FailResult::ExportMIDI => FailView::ExportMIDI,
            FailResult::ExportTemplate => FailView::ExportTemplate,
            FailResult::NoPatterns => FailView::NoPatterns,
            FailResult::NoFoundPattern(name) => FailView::NoFoundPattern(name@),
            FailResult::EmptyPatterns => FailView::EmptyPatterns,
            FailResult::TimeReverse(time, index, chord) => FailView::TimeReverse(
                *time,
                *index as int,
                chord@,
            ),
            FailResult::UnreachableTime(time, index, chord) => FailView::UnreachableTime(
                *time,
                *index as int,
                chord@,
            ),
            FailResult::TimeSignature(signature) => FailView::TimeSignature(*signature),
            FailResult::LoadSampler => FailView::LoadSampler,
        }
    }
}

/// The ways in which an operation can succeed.
#[derive(Debug, PartialEq)]
pub enum SuccessResult {
    Export(Vec<String>),
    ExportTemplate,
    Playback,
}

/// The description of every built-in chord: its name, which is case
/// sensitive, and its intervals.
pub fn get_chord_keywords() -> (keywords: Vec<&'static str>)
    ensures
        keywords@.len() == chord_keywords().len(),
        forall|i: int| 0 <= i < keywords@.len() ==> (#[trigger] keywords@[i])@ == chord_keywords()[i],
{
    chord_to_string_array()
}

/// The index of the first pattern of the given name, if there is one.
pub open spec fn first_pattern_named(composition: CompositionView, name: Seq<char>, index: int) -> bool {
    &&& 0 <= index < composition.patterns.len()
    &&& composition.patterns[index].name == name
    &&& forall|i: int| 0 <= i < index ==> (#[trigger] composition.patterns[i]).name != name
}

/// Finds the pattern from which a performance is to start, by its name: the
/// first pattern of that name. Fails where no pattern has the name.
pub fn find_pattern_index(composition: &Composition, pattern_start_name: &str) -> (found: Result<
    usize,
    FailResult,
>)
    ensures
        match found {
            Ok(index) => first_pattern_named(composition@, pattern_start_name@, index as int),
            Err(failure) => {
                &&& failure@ == FailView::NoFoundPattern(pattern_start_name@)
                &&& forall|i: int|
                    0 <= i < composition@.patterns.len() ==> (#[trigger] composition@.patterns[i]).name
                        != pattern_start_name@
            },
        },
{
    let mut i: usize = 0;
    while i < composition.len()
        invariant
            i <= composition@.patterns.len(),
            forall|k: int| 0 <= k < i ==> (#[trigger] composition@.patterns[k]).name != pattern_start_name@,
        decreases composition@.patterns.len() - i,
    {
        if text::same_text(composition.get(i).get_name(), pattern_start_name) {
            return Ok(i);
        }
        i += 1;
    }
    Err(FailResult::NoFoundPattern(pattern_start_name.to_owned()))
}

/// An event at the given time whose pitches are the given intervals, moved
/// by `transpose` semitones and raised to the playback octave.
pub fn build_event(
    bar: u16,
    beat: u8,
    beat_interval: u8,
    chord_intervals: Vec<i8>,
    transpose: i8,
) -> (event: PatternEvent)
    ensures
        event.0 == (MusicTime { bar, beat, beat_interval }),
        event.1@ == chord_pitches(
            chord_intervals@,
            transpose + PLAYBACK_OCTAVE * NOTES_IN_OCTAVE,
        ),
{
    let mut chord = IntervalChord::new(chord_intervals, transpose);
    chord.transpose_octave(PLAYBACK_OCTAVE);
    (MusicTime::new(bar, beat, beat_interval), chord.to_midi())
}

} // verus!
