//! Musical keys and absolute pitches.

use crate::text::same_text;
use vstd::prelude::*;

verus! {

/// Lowest pitch an event can hold.
pub const MIN_PITCH: u8 = 24;

/// Highest pitch an event can hold.
pub const MAX_PITCH: u8 = 107;

/// Number of semitones in an octave.
pub const NOTES_IN_OCTAVE: u8 = 12;

/// The twelve keys of the chromatic scale, starting at C.
#[derive(Clone, Copy, Debug, PartialEq, Eq, Structural)]
pub enum Key {
    C,
    Cs,
    D,
    Ds,
    E,
    F,
    Fs,
    G,
    Gs,
    A,
    As,
    B,
}

/// Semitone distance of a key above C.
pub open spec fn key_index(key: Key) -> int {
    match key {
        Key::C => 0,
        Key::Cs => 1,
        Key::D => 2,
        Key::Ds => 3,
        Key::E => 4,
        Key::F => 5,
        Key::Fs => 6,
        Key::G => 7,
        Key::Gs => 8,
        Key::A => 9,
        Key::As => 10,
        Key::B => 11,
    }
}

/// The key at a semitone distance above C; C for any distance outside 0..=11.
pub open spec fn key_at(index: int) -> Key {
    if index == 1 {
        Key::Cs
    } else if index == 2 {
        Key::D
    } else if index == 3 {
        Key::Ds
    } else if index == 4 {
        Key::E
    } else if index == 5 {
        Key::F
    } else if index == 6 {
        Key::Fs
    } else if index == 7 {
        Key::G
    } else if index == 8 {
        Key::Gs
    } else if index == 9 {
        Key::A
    } else if index == 10 {
        Key::As
    } else if index == 11 {
        Key::B
    } else {
        Key::C
    }
}

/// The written name of a key.
pub open spec fn key_name(key: Key) -> Seq<char> {
    match key {
        Key::C => "C"@,
        Key::Cs => "C#"@,
        Key::D => "D"@,
        Key::Ds => "D#"@,
        Key::E => "E"@,
        Key::F => "F"@,
        Key::Fs => "F#"@,
        Key::G => "G"@,
        Key::Gs => "G#"@,
        Key::A => "A"@,
        Key::As => "A#"@,
        Key::B => "B"@,
    }
}

/// The key a name stands for; C for any text that names no key.
pub open spec fn key_named(name: Seq<char>) -> Key {
    if name == "C#"@ {
        Key::Cs
    } else if name == "D"@ {
        Key::D
    } else if name == "D#"@ {
        Key::Ds
    } else if name == "E"@ {
        Key::E
    } else if name == "F"@ {
        Key::F
    } else if name == "F#"@ {
        Key::Fs
    } else if name == "G"@ {
        Key::G
    } else if name == "G#"@ {
        Key::Gs
    } else if name == "A"@ {
        Key::A
    } else if name == "A#"@ {
        Key::As
    } else if name == "B"@ {
        Key::B
    } else {
        Key::C
    }
}

/// The pitch that lies `offset` semitones above the lowest pitch, held
/// within the range of pitches.
pub open spec fn pitch_at(offset: int) -> int {
    if MIN_PITCH + offset <= MIN_PITCH {
        MIN_PITCH as int
    } else if MIN_PITCH + offset >= MAX_PITCH {
        MAX_PITCH as int
    } else {
        MIN_PITCH + offset
    }
}

pub fn key_to_index(key: Key) -> (index: u8)
    ensures
        index == key_index(key),
        index <= 11,
{
    match key {
        Key::C => 0,
        Key::Cs => 1,
        Key::D => 2,
        Key::Ds => 3,
        Key::E => 4,
        Key::F => 5,
        Key::Fs => 6,
        Key::G => 7,
        Key::Gs => 8,
        Key::A => 9,
        Key::As => 10,
        Key::B => 11,
    }
}

pub fn key_to_string(key: Key) -> (name: &'static str)
    ensures
        name@ == key_name(key),
{
    match key {
        Key::C => "C",
        Key::Cs => "C#",
        Key::D => "D",
        Key::Ds => "D#",
        Key::E => "E",
        Key::F => "F",
        Key::Fs => "F#",
        Key::G => "G",
        Key::Gs => "G#",
        Key::A => "A",
        Key::As => "A#",
        Key::B => "B",
    }
}

pub fn string_to_key(key: &str) -> (found: Key)
    ensures
        found == key_named(key@),
{
    if same_text(key, "C#") {
        Key::Cs
    } else if same_text(key, "D") {
        Key::D
    } else if same_text(key, "D#") {
        Key::Ds
    } else if same_text(key, "E") {
        Key::E
    } else if same_text(key, "F") {
        Key::F
    } else if same_text(key, "F#") {
        Key::Fs
    } else if same_text(key, "G") {
        Key::G
    } else if same_text(key, "G#") {
        Key::Gs
    } else if same_text(key, "A") {
        Key::A
    } else if same_text(key, "A#") {
        Key::As
    } else if same_text(key, "B") {
        Key::B
    } else {
        Key::C
    }
}

pub fn index_to_key(key: i8) -> (found: Key)
    ensures
        found == key_at(key as int),
{
    match key {
        1 => Key::Cs,
        2 => Key::D,
        3 => Key::Ds,
        4 => Key::E,
        5 => Key::F,
        6 => Key::Fs,
        7 => Key::G,
        8 => Key::Gs,
        9 => Key::A,
        10 => Key::As,
        11 => Key::B,
        _ => Key::C,
    }
}

/// The pitch `offset` semitones above the lowest pitch. An offset that
/// leads out of the range of pitches gives the nearest end of the range.
pub fn pitch_from_offset(offset: i64) -> (pitch: u8)
    ensures
        pitch == pitch_at(offset as int),
        MIN_PITCH <= pitch <= MAX_PITCH,
{
    if offset <= 0 {
        MIN_PITCH
    } else if offset >= 83 {
        MAX_PITCH
    } else {
        MIN_PITCH + (offset as u8)
    }
}

pub fn to_midi_note(note_interval: i8) -> (pitch: u8)
    ensures
        pitch == pitch_at(note_interval as int),
        MIN_PITCH <= pitch <= MAX_PITCH,
{
    pitch_from_offset(note_interval as i64)
}

/// Splits a pitch into its octave, counted from 1 at the lowest pitch, and
/// its key.
pub fn midi_to_note(value: u8) -> (note: (u8, Key))
    requires
        value >= MIN_PITCH,
    ensures
        note.0 == (value - MIN_PITCH) / (NOTES_IN_OCTAVE as int) + 1,
        note.1 == key_at((value - MIN_PITCH) % (NOTES_IN_OCTAVE as int)),
{
    let corrected_value = value - MIN_PITCH;
    let note = corrected_value % NOTES_IN_OCTAVE;
    let octave = corrected_value / NOTES_IN_OCTAVE;
    (octave + 1, index_to_key(note as i8))
}

/// A pitch never leaves the range of pitches: an offset that leads below
/// the range gives its lowest pitch, one that leads above it gives its
/// highest, and any other offset gives the pitch it leads to.
pub proof fn lemma_pitch_saturates(offset: int)
    ensures
        MIN_PITCH <= pitch_at(offset) <= MAX_PITCH,
        MIN_PITCH + offset < MIN_PITCH ==> pitch_at(offset) == MIN_PITCH,
        MIN_PITCH + offset > MAX_PITCH ==> pitch_at(offset) == MAX_PITCH,
        MIN_PITCH <= MIN_PITCH + offset <= MAX_PITCH ==> pitch_at(offset) == MIN_PITCH + offset,
{
}

/// Every key is found again from its index.
pub proof fn lemma_key_index_round_trip(key: Key)
    ensures
        key_at(key_index(key)) == key,
        0 <= key_index(key) <= 11,
{
}

} // verus!
