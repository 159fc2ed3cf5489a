//! Chords as interval sequences: the table of built-in chords, chords
//! declared by a composition, and their resolution to pitches.

use crate::text::{same_text, trim, trimmed};
use crate::theory::notes::{pitch_at, pitch_from_offset, MAX_PITCH, MIN_PITCH, NOTES_IN_OCTAVE};
use rand::Rng;
use vstd::prelude::*;

verus! {

/// Chords declared by a composition: name and intervals, in the order of
/// declaration.
pub type CustomChords = Vec<(String, Vec<i8>)>;

pub const AUGMENTED: [i8; 3] = [0, 4, 8];

pub const AUGMENTED_ELEVENTH: [i8; 6] = [0, 4, 7, 10, 2, 6];

pub const AUGMENTED_MAJOR_SEVENTH: [i8; 4] = [0, 4, 8, 11];

pub const AUGMENTED_SEVENTH: [i8; 4] = [0, 4, 8, 10];

pub const AUGMENTED_SIXTH: [i8; 3] = [0, 6, 8];

pub const DIMINISHED: [i8; 3] = [0, 3, 6];

pub const DIMINISHED_MAJOR_SEVENTH: [i8; 4] = [0, 3, 6, 11];

pub const DIMINISHED_SEVENTH: [i8; 4] = [0, 3, 6, 9];

pub const DOMINANT: [i8; 3] = [0, 4, 7];

pub const DOMINANT_ELEVENTH: [i8; 6] = [0, 4, 7, 10, 2, 5];

pub const DOMINANT_MINOR_NINTH: [i8; 5] = [0, 4, 7, 10, 1];

pub const DOMINANT_NINTH: [i8; 5] = [0, 4, 7, 10, 2];

pub const DOMINANT_PARALLEL: [i8; 3] = [0, 3, 7];

pub const DOMINANT_SEVENTH: [i8; 4] = [0, 4, 7, 10];

pub const DOMINANT_SEVENTH_FLAT_FIVE: [i8; 4] = [0, 4, 6, 10];

pub const DOMINANT_SEVENTH_RAISED_NINTH: [i8; 5] = [0, 4, 7, 10, 3];

pub const DOMINANT_THIRTEENTH: [i8; 7] = [0, 4, 7, 10, 2, 5, 9];

pub const DREAM: [i8; 4] = [0, 5, 6, 7];

pub const ELEKTRA: [i8; 5] = [0, 7, 9, 1, 4];

pub const FARBEN: [i8; 5] = [0, 8, 11, 4, 9];

pub const HALF_DIMINISHED_SEVENTH: [i8; 4] = [0, 3, 6, 10];

pub const HARMONIC_SEVENTH: [i8; 4] = [0, 4, 7, 10];

pub const AUGMENTED_NINTH: [i8; 5] = [0, 4, 7, 10, 3];

pub const LEADING_TONE: [i8; 3] = [0, 3, 6];

pub const LYDIAN: [i8; 5] = [0, 4, 7, 11, 6];

pub const MAGIC: [i8; 8] = [0, 1, 5, 6, 10, 0, 3, 5];

pub const MAJOR: [i8; 3] = [0, 4, 7];

pub const MAJOR_ELEVENTH: [i8; 6] = [0, 4, 7, 11, 2, 5];

pub const MAJOR_SEVENTH: [i8; 4] = [0, 4, 7, 11];

pub const MAJOR_SEVENTH_SHARP_ELEVENTH: [i8; 5] = [0, 4, 8, 11, 6];

pub const MAJOR_SIXTH: [i8; 4] = [0, 4, 7, 9];

pub const MAJOR_SIXTH_NINTH: [i8; 5] = [0, 4, 7, 9, 2];

pub const MAJOR_NINTH: [i8; 5] = [0, 4, 7, 11, 2];

pub const MAJOR_THIRTEENTH: [i8; 7] = [0, 4, 7, 11, 2, 6, 9];

pub const MEDIANT: [i8; 3] = [0, 3, 7];

pub const MINOR: [i8; 3] = [0, 3, 7];

pub const MINOR_ELEVENTH: [i8; 6] = [0, 3, 7, 10, 2, 5];

pub const MINOR_MAJOR_SEVENTH: [i8; 4] = [0, 3, 7, 11];

pub const MINOR_NINTH: [i8; 5] = [0, 3, 7, 10, 2];

pub const MINOR_SEVENTH: [i8; 4] = [0, 3, 7, 10];

pub const MINOR_SIXTH: [i8; 4] = [0, 3, 7, 9];

pub const MINOR_SIXTH_NINTH: [i8; 5] = [0, 3, 7, 9, 2];

pub const MINOR_THIRTEENTH: [i8; 7] = [0, 3, 7, 10, 2, 5, 9];

pub const MU: [i8; 4] = [0, 2, 4, 7];

pub const MYSTIC: [i8; 6] = [0, 6, 10, 4, 9, 2];

pub const NEAPOLITAN: [i8; 3] = [1, 5, 8];

pub const NINTH_AUGMENTED_FIFTH: [i8; 5] = [0, 4, 8, 10, 2];

pub const NINTH_FLAT_FIFTH: [i8; 5] = [0, 4, 6, 10, 2];

pub const NORTHERN_LIGHTS: [i8; 11] = [1, 2, 8, 0, 3, 6, 7, 10, 11, 4, 7];

pub const ODE_TO_NAPOLEON_HEXACHORD: [i8; 6] = [0, 1, 4, 5, 8, 9];

pub const PETRUSHKA: [i8; 6] = [0, 1, 4, 6, 7, 10];

pub const POWER: [i8; 2] = [0, 7];

pub const PSALMS: [i8; 3] = [0, 3, 7];

pub const SECONDARY_DOMINANT: [i8; 3] = [0, 4, 7];

pub const SECONDARY_LEADING_TONE: [i8; 3] = [0, 3, 6];

pub const SECONDARY_SUPERTONIC: [i8; 3] = [0, 3, 7];

pub const SEVEN_SIX: [i8; 5] = [0, 4, 7, 9, 10];

pub const SEVENTH_FLAT_NINE: [i8; 5] = [0, 4, 7, 10, 1];

pub const SEVENTH_SUSPENSION_FOUR: [i8; 4] = [0, 5, 7, 10];

pub const SO_WHAT: [i8; 5] = [0, 5, 10, 3, 7];

pub const SUSPENDED: [i8; 3] = [0, 5, 7];

pub const SUBDOMINANT: [i8; 3] = [0, 4, 7];

pub const SUBDOMINANT_PARALLEL: [i8; 3] = [0, 3, 7];

pub const SUBMEDIANT: [i8; 3] = [0, 3, 7];

pub const SUBTONIC: [i8; 3] = [0, 4, 7];

pub const SUPERTONIC: [i8; 3] = [0, 3, 7];

pub const THIRTEENTH_FLAT_NINTH: [i8; 7] = [0, 4, 7, 10, 1, 12, 9];

pub const THIRTEENTH_FLAT_NINTH_FLAT_FIFTH: [i8; 7] = [0, 4, 6, 10, 1, 12, 9];

pub const TONIC_COUNTER_PARALLEL: [i8; 3] = [0, 3, 7];

pub const TONIC: [i8; 3] = [0, 4, 7];

pub const TONIC_PARALLEL: [i8; 3] = [0, 3, 7];

pub const TRISTAN: [i8; 4] = [0, 3, 6, 10];

pub const VIENNESE_TRICHORD: [i8; 4] = [0, 1, 6, 7];

/// The intervals of the built-in chord with the given name; empty where the
/// name is not that of a built-in chord. Names are case sensitive.
pub open spec fn chord_intervals(name: Seq<char>) -> Seq<i8> {
    if name == "AUGMENTED"@ {
        AUGMENTED@
    } else if name == "AUGMENTED_ELEVENTH"@ {
        AUGMENTED_ELEVENTH@
    } else if name == "AUGMENTED_MAJOR_SEVENTH"@ {
        AUGMENTED_MAJOR_SEVENTH@
    } else if name == "AUGMENTED_SEVENTH"@ {
        AUGMENTED_SEVENTH@
    } else if name == "AUGMENTED_SIXTH"@ {
        AUGMENTED_SIXTH@
    } else if name == "DIMINISHED"@ {
        DIMINISHED@
    } else if name == "DIMINISHED_MAJOR_SEVENTH"@ {
        DIMINISHED_MAJOR_SEVENTH@
    } else if name == "DIMINISHED_SEVENTH"@ {
        DIMINISHED_SEVENTH@
    } else if name == "DOMINANT"@ {
        DOMINANT@
    } else if name == "DOMINANT_ELEVENTH"@ {
        DOMINANT_ELEVENTH@
    } else if name == "DOMINANT_MINOR_NINTH"@ {
        DOMINANT_MINOR_NINTH@
    } else if name == "DOMINANT_NINTH"@ {
        DOMINANT_NINTH@
    } else if name == "DOMINANT_PARALLEL"@ {
        DOMINANT_PARALLEL@
    } else if name == "DOMINANT_SEVENTH"@ {
        DOMINANT_SEVENTH@
    } else if name == "DOMINANT_SEVENTH_FLAT_FIVE"@ {
        DOMINANT_SEVENTH_FLAT_FIVE@
    } else if name == "DOMINANT_SEVENTH_RAISED_NINTH"@ {
        DOMINANT_SEVENTH_RAISED_NINTH@
    } else if name == "DOMINANT_THIRTEENTH"@ {
        DOMINANT_THIRTEENTH@
    } else if name == "DREAM"@ {
        DREAM@
    } else if name == "ELEKTRA"@ {
        ELEKTRA@
    } else if name == "FARBEN"@ {
        FARBEN@
    } else if name == "HALF_DIMINISHED_SEVENTH"@ {
        HALF_DIMINISHED_SEVENTH@
    } else if name == "HARMONIC_SEVENTH"@ {
        HARMONIC_SEVENTH@
    } else if name == "AUGMENTED_NINTH"@ {
        AUGMENTED_NINTH@
    } else if name == "LEADING_TONE"@ {
        LEADING_TONE@
    } else if name == "LYDIAN"@ {
        LYDIAN@
    } else if name == "MAGIC"@ {
        MAGIC@
    } else if name == "MAJOR"@ {
        MAJOR@
    } else if name == "MAJOR_ELEVENTH"@ {
        MAJOR_ELEVENTH@
    } else if name == "MAJOR_SEVENTH"@ {
        MAJOR_SEVENTH@
    } else if name == "MAJOR_SEVENTH_SHARP_ELEVENTH"@ {
        MAJOR_SEVENTH_SHARP_ELEVENTH@
    } else if name == "MAJOR_SIXTH"@ {
        MAJOR_SIXTH@
    } else if name == "MAJOR_SIXTH_NINTH"@ {
        MAJOR_SIXTH_NINTH@
    } else if name == "MAJOR_NINTH"@ {
        MAJOR_NINTH@
    } else if name == "MAJOR_THIRTEENTH"@ {
        MAJOR_THIRTEENTH@
    } else if name == "MEDIANT"@ {
        MEDIANT@
    } else if name == "MINOR"@ {
        MINOR@
    } else if name == "MINOR_ELEVENTH"@ {
        MINOR_ELEVENTH@
    } else if name == "MINOR_MAJOR_SEVENTH"@ {
        MINOR_MAJOR_SEVENTH@
    } else if name == "MINOR_NINTH"@ {
        MINOR_NINTH@
    } else if name == "MINOR_SEVENTH"@ {
        MINOR_SEVENTH@
    } else if name == "MINOR_SIXTH"@ {
        MINOR_SIXTH@
    } else if name == "MINOR_SIXTH_NINTH"@ {
        MINOR_SIXTH_NINTH@
    } else if name == "MINOR_THIRTEENTH"@ {
        MINOR_THIRTEENTH@
    } else if name == "MU"@ {
        MU@
    } else if name == "MYSTIC"@ {
        MYSTIC@
    } else if name == "NEAPOLITAN"@ {
        NEAPOLITAN@
    } else if name == "NINTH_AUGMENTED_FIFTH"@ {
        NINTH_AUGMENTED_FIFTH@
    } else if name == "NINTH_FLAT_FIFTH"@ {
        NINTH_FLAT_FIFTH@
    } else if name == "NORTHERN_LIGHTS"@ {
        NORTHERN_LIGHTS@
    } else if name == "ODE_TO_NAPOLEON_HEXACHORD"@ {
        ODE_TO_NAPOLEON_HEXACHORD@
    } else if name == "PETRUSHKA"@ {
        PETRUSHKA@
    } else if name == "POWER"@ {
        POWER@
    } else if name == "PSALMS"@ {
        PSALMS@
    } else if name == "SECONDARY_DOMINANT"@ {
        SECONDARY_DOMINANT@
    } else if name == "SECONDARY_LEADING_TONE"@ {
        SECONDARY_LEADING_TONE@
    } else if name == "SECONDARY_SUPERTONIC"@ {
        SECONDARY_SUPERTONIC@
    } else if name == "SEVEN_SIX"@ {
        SEVEN_SIX@
    } else if name == "SEVENTH_FLAT_NINE"@ {
        SEVENTH_FLAT_NINE@
    } else if name == "SEVENTH_SUSPENSION_FOUR"@ {
        SEVENTH_SUSPENSION_FOUR@
    } else if name == "SO_WHAT"@ {
        SO_WHAT@
    } else if name == "SUSPENDED"@ {
        SUSPENDED@
    } else if name == "SUBDOMINANT"@ {
        SUBDOMINANT@
    } else if name == "SUBDOMINANT_PARALLEL"@ {
        SUBDOMINANT_PARALLEL@
    } else if name == "SUBMEDIANT"@ {
        SUBMEDIANT@
    } else if name == "SUBTONIC"@ {
        SUBTONIC@
    } else if name == "SUPERTONIC"@ {
        SUPERTONIC@
    } else if name == "THIRTEENTH_FLAT_NINTH"@ {
        THIRTEENTH_FLAT_NINTH@
    } else if name == "THIRTEENTH_FLAT_NINTH_FLAT_FIFTH"@ {
        THIRTEENTH_FLAT_NINTH_FLAT_FIFTH@
    } else if name == "TONIC_COUNTER_PARALLEL"@ {
        TONIC_COUNTER_PARALLEL@
    } else if name == "TONIC"@ {
        TONIC@
    } else if name == "TONIC_PARALLEL"@ {
        TONIC_PARALLEL@
    } else if name == "TRISTAN"@ {
        TRISTAN@
    } else if name == "VIENNESE_TRICHORD"@ {
        VIENNESE_TRICHORD@
    } else {
        Seq::<i8>::empty()
    }
}

/// The intervals of every built-in chord, in the order of the chord table.
pub open spec fn all_chords() -> Seq<Seq<i8>> {
    seq![
        AUGMENTED@,
        AUGMENTED_ELEVENTH@,
        AUGMENTED_MAJOR_SEVENTH@,
        AUGMENTED_SEVENTH@,
        AUGMENTED_SIXTH@,
        DIMINISHED@,
        DIMINISHED_MAJOR_SEVENTH@,
        DIMINISHED_SEVENTH@,
        DOMINANT@,
        DOMINANT_ELEVENTH@,
        DOMINANT_MINOR_NINTH@,
        DOMINANT_NINTH@,
        DOMINANT_PARALLEL@,
        DOMINANT_SEVENTH@,
        DOMINANT_SEVENTH_FLAT_FIVE@,
        DOMINANT_SEVENTH_RAISED_NINTH@,
        DOMINANT_THIRTEENTH@,
        DREAM@,
        ELEKTRA@,
        FARBEN@,
        HALF_DIMINISHED_SEVENTH@,
        HARMONIC_SEVENTH@,
        AUGMENTED_NINTH@,
        LEADING_TONE@,
        LYDIAN@,
        MAGIC@,
        MAJOR@,
        MAJOR_ELEVENTH@,
        MAJOR_SEVENTH@,
        MAJOR_SEVENTH_SHARP_ELEVENTH@,
        MAJOR_SIXTH@,
        MAJOR_SIXTH_NINTH@,
        MAJOR_NINTH@,
        MAJOR_THIRTEENTH@,
        MEDIANT@,
        MINOR@,
        MINOR_ELEVENTH@,
        MINOR_MAJOR_SEVENTH@,
        MINOR_NINTH@,
        MINOR_SEVENTH@,
        MINOR_SIXTH@,
        MINOR_SIXTH_NINTH@,
        MINOR_THIRTEENTH@,
        MU@,
        MYSTIC@,
        NEAPOLITAN@,
        NINTH_AUGMENTED_FIFTH@,
        NINTH_FLAT_FIFTH@,
        NORTHERN_LIGHTS@,
        ODE_TO_NAPOLEON_HEXACHORD@,
        PETRUSHKA@,
        POWER@,
        PSALMS@,
        SECONDARY_DOMINANT@,
        SECONDARY_LEADING_TONE@,
        SECONDARY_SUPERTONIC@,
        SEVEN_SIX@,
        SEVENTH_FLAT_NINE@,
        SEVENTH_SUSPENSION_FOUR@,
        SO_WHAT@,
        SUSPENDED@,
        SUBDOMINANT@,
        SUBDOMINANT_PARALLEL@,
        SUBMEDIANT@,
        SUBTONIC@,
        SUPERTONIC@,
        THIRTEENTH_FLAT_NINTH@,
        THIRTEENTH_FLAT_NINTH_FLAT_FIFTH@,
        TONIC_COUNTER_PARALLEL@,
        TONIC@,
        TONIC_PARALLEL@,
        TRISTAN@,
        VIENNESE_TRICHORD@,
    ]
}

/// The description of every built-in chord, in the order of the chord table:
/// its name, an equals sign and its intervals.
pub open spec fn chord_keywords() -> Seq<Seq<char>> {
    seq![
        "AUGMENTED = [0, 4, 8]"@,
        "AUGMENTED_ELEVENTH = [0, 4, 7, 10, 2, 6]"@,
        "AUGMENTED_MAJOR_SEVENTH = [0, 4, 8, 11]"@,
        "AUGMENTED_SEVENTH = [0, 4, 8, 10]"@,
        "AUGMENTED_SIXTH = [0, 6, 8]"@,
        "DIMINISHED = [0, 3, 6]"@,
        "DIMINISHED_MAJOR_SEVENTH = [0, 3, 6, 11]"@,
        "DIMINISHED_SEVENTH = [0, 3, 6, 9]"@,
        "DOMINANT = [0, 4, 7]"@,
        "DOMINANT_ELEVENTH = [0, 4, 7, 10, 2, 5]"@,
        "DOMINANT_MINOR_NINTH = [0, 4, 7, 10, 1]"@,
        "DOMINANT_NINTH = [0, 4, 7, 10, 2]"@,
        "DOMINANT_PARALLEL = [0, 3, 7]"@,
        "DOMINANT_SEVENTH = [0, 4, 7, 10]"@,
        "DOMINANT_SEVENTH_FLAT_FIVE = [0, 4, 6, 10]"@,
        "DOMINANT_SEVENTH_RAISED_NINTH = [0, 4, 7, 10, 3]"@,
        "DOMINANT_THIRTEENTH = [0, 4, 7, 10, 2, 5, 9]"@,
        "DREAM = [0, 5, 6, 7]"@,
        "ELEKTRA = [0, 7, 9, 1, 4]"@,
        "FARBEN = [0, 8, 11, 4, 9]"@,
        "HALF_DIMINISHED_SEVENTH = [0, 3, 6, 10]"@,
        "HARMONIC_SEVENTH = [0, 4, 7, 10]"@,
        "AUGMENTED_NINTH = [0, 4, 7, 10, 3]"@,
        "LEADING_TONE = [0, 3, 6]"@,
        "LYDIAN = [0, 4, 7, 11, 6]"@,
        "MAGIC = [0, 1, 5, 6, 10, 0, 3, 5]"@,
        "MAJOR = [0, 4, 7]"@,
        "MAJOR_ELEVENTH = [0, 4, 7, 11, 2, 5]"@,
        "MAJOR_SEVENTH = [0, 4, 7, 11]"@,
        "MAJOR_SEVENTH_SHARP_ELEVENTH = [0, 4, 8, 11, 6]"@,
        "MAJOR_SIXTH = [0, 4, 7, 9]"@,
        "MAJOR_SIXTH_NINTH = [0, 4, 7, 9, 2]"@,
        "MAJOR_NINTH = [0, 4, 7, 11, 2]"@,
        "MAJOR_THIRTEENTH = [0, 4, 7, 11, 2, 6, 9]"@,
        "MEDIANT = [0, 3, 7]"@,
        "MINOR = [0, 3, 7]"@,
        "MINOR_ELEVENTH = [0, 3, 7, 10, 2, 5]"@,
        "MINOR_MAJOR_SEVENTH = [0, 3, 7, 11]"@,
        "MINOR_NINTH = [0, 3, 7, 10, 2]"@,
        "MINOR_SEVENTH = [0, 3, 7, 10]"@,
        "MINOR_SIXTH = [0, 3, 7, 9]"@,
        "MINOR_SIXTH_NINTH = [0, 3, 7, 9, 2]"@,
        "MINOR_THIRTEENTH = [0, 3, 7, 10, 2, 5, 9]"@,
        "MU = [0, 2, 4, 7]"@,
        "MYSTIC = [0, 6, 10, 4, 9, 2]"@,
        "NEAPOLITAN = [1, 5, 8]"@,
        "NINTH_AUGMENTED_FIFTH = [0, 4, 8, 10, 2]"@,
        "NINTH_FLAT_FIFTH = [0, 4, 6, 10, 2]"@,
        "NORTHERN_LIGHTS = [1, 2, 8, 0, 3, 6, 7, 10, 11, 4, 7]"@,
        "ODE_TO_NAPOLEON_HEXACHORD = [0, 1, 4, 5, 8, 9]"@,
        "PETRUSHKA = [0, 1, 4, 6, 7, 10]"@,
        "POWER = [0, 7]"@,
        "PSALMS = [0, 3, 7]"@,
        "SECONDARY_DOMINANT = [0, 4, 7]"@,
        "SECONDARY_LEADING_TONE = [0, 3, 6]"@,
        "SECONDARY_SUPERTONIC = [0, 3, 7]"@,
        "SEVEN_SIX = [0, 4, 7, 9, 10]"@,
        "SEVENTH_FLAT_NINE = [0, 4, 7, 10, 1]"@,
        "SEVENTH_SUSPENSION_FOUR = [0, 5, 7, 10]"@,
        "SO_WHAT = [0, 5, 10, 3, 7]"@,
        "SUSPENDED = [0, 5, 7]"@,
        "SUBDOMINANT = [0, 4, 7]"@,
        "SUBDOMINANT_PARALLEL = [0, 3, 7]"@,
        "SUBMEDIANT = [0, 3, 7]"@,
        "SUBTONIC = [0, 4, 7]"@,
        "SUPERTONIC = [0, 3, 7]"@,
        "THIRTEENTH_FLAT_NINTH = [0, 4, 7, 10, 1, 12, 9]"@,
        "THIRTEENTH_FLAT_NINTH_FLAT_FIFTH = [0, 4, 6, 10, 1, 12, 9]"@,
        "TONIC_COUNTER_PARALLEL = [0, 3, 7]"@,
        "TONIC = [0, 4, 7]"@,
        "TONIC_PARALLEL = [0, 3, 7]"@,
        "TRISTAN = [0, 3, 6, 10]"@,
        "VIENNESE_TRICHORD = [0, 1, 6, 7]"@,
    ]
}

/// Copies a row of the chord table.
fn intervals_of<const N: usize>(row: &[i8; N]) -> (intervals: Vec<i8>)
    ensures
        intervals@ == row@,
{
    let mut intervals: Vec<i8> = Vec::new();
    let mut i: usize = 0;
    while i < N
        invariant
            i <= N,
            row@.len() == N,
            intervals@ == row@.subrange(0, i as int),
        decreases N - i,
    {
        intervals.push(row[i]);
        assert(intervals@ =~= row@.subrange(0, i + 1));
        i += 1;
    }
    assert(intervals@ =~= row@);
    intervals
}

pub fn string_to_chord(name: &str) -> (intervals: Vec<i8>)
    ensures
        intervals@ == chord_intervals(name@),
{
    if same_text(name, "AUGMENTED") {
        intervals_of(&AUGMENTED)
    } else if same_text(name, "AUGMENTED_ELEVENTH") {
        intervals_of(&AUGMENTED_ELEVENTH)
    } else if same_text(name, "AUGMENTED_MAJOR_SEVENTH") {
        intervals_of(&AUGMENTED_MAJOR_SEVENTH)
    } else if same_text(name, "AUGMENTED_SEVENTH") {
        intervals_of(&AUGMENTED_SEVENTH)
    } else if same_text(name, "AUGMENTED_SIXTH") {
        intervals_of(&AUGMENTED_SIXTH)
    } else if same_text(name, "DIMINISHED") {
        intervals_of(&DIMINISHED)
    } else if same_text(name, "DIMINISHED_MAJOR_SEVENTH") {
        intervals_of(&DIMINISHED_MAJOR_SEVENTH)
    } else if same_text(name, "DIMINISHED_SEVENTH") {
        intervals_of(&DIMINISHED_SEVENTH)
    } else if same_text(name, "DOMINANT") {
        intervals_of(&DOMINANT)
    } else if same_text(name, "DOMINANT_ELEVENTH") {
        intervals_of(&DOMINANT_ELEVENTH)
    } else if same_text(name, "DOMINANT_MINOR_NINTH") {
        intervals_of(&DOMINANT_MINOR_NINTH)
    } else if same_text(name, "DOMINANT_NINTH") {
        intervals_of(&DOMINANT_NINTH)
    } else if same_text(name, "DOMINANT_PARALLEL") {
        intervals_of(&DOMINANT_PARALLEL)
    } else if same_text(name, "DOMINANT_SEVENTH") {
        intervals_of(&DOMINANT_SEVENTH)
    } else if same_text(name, "DOMINANT_SEVENTH_FLAT_FIVE") {
        intervals_of(&DOMINANT_SEVENTH_FLAT_FIVE)
    } else if same_text(name, "DOMINANT_SEVENTH_RAISED_NINTH") {
        intervals_of(&DOMINANT_SEVENTH_RAISED_NINTH)
    } else if same_text(name, "DOMINANT_THIRTEENTH") {
        intervals_of(&DOMINANT_THIRTEENTH)
    } else if same_text(name, "DREAM") {
        intervals_of(&DREAM)
    } else if same_text(name, "ELEKTRA") {
        intervals_of(&ELEKTRA)
    } else if same_text(name, "FARBEN") {
        intervals_of(&FARBEN)
    } else if same_text(name, "HALF_DIMINISHED_SEVENTH") {
        intervals_of(&HALF_DIMINISHED_SEVENTH)
    } else if same_text(name, "HARMONIC_SEVENTH") {
        intervals_of(&HARMONIC_SEVENTH)
    } else if same_text(name, "AUGMENTED_NINTH") {
        intervals_of(&AUGMENTED_NINTH)
    } else if same_text(name, "LEADING_TONE") {
        intervals_of(&LEADING_TONE)
    } else if same_text(name, "LYDIAN") {
        intervals_of(&LYDIAN)
    } else if same_text(name, "MAGIC") {
        intervals_of(&MAGIC)
    } else if same_text(name, "MAJOR") {
        intervals_of(&MAJOR)
    } else if same_text(name, "MAJOR_ELEVENTH") {
        intervals_of(&MAJOR_ELEVENTH)
    } else if same_text(name, "MAJOR_SEVENTH") {
        intervals_of(&MAJOR_SEVENTH)
    } else if same_text(name, "MAJOR_SEVENTH_SHARP_ELEVENTH") {
        intervals_of(&MAJOR_SEVENTH_SHARP_ELEVENTH)
    } else if same_text(name, "MAJOR_SIXTH") {
        intervals_of(&MAJOR_SIXTH)
    } else if same_text(name, "MAJOR_SIXTH_NINTH") {
        intervals_of(&MAJOR_SIXTH_NINTH)
    } else if same_text(name, "MAJOR_NINTH") {
        intervals_of(&MAJOR_NINTH)
    } else if same_text(name, "MAJOR_THIRTEENTH") {
        intervals_of(&MAJOR_THIRTEENTH)
    } else if same_text(name, "MEDIANT") {
        intervals_of(&MEDIANT)
    } else if same_text(name, "MINOR") {
        intervals_of(&MINOR)
    } else if same_text(name, "MINOR_ELEVENTH") {
        intervals_of(&MINOR_ELEVENTH)
    } else if same_text(name, "MINOR_MAJOR_SEVENTH") {
        intervals_of(&MINOR_MAJOR_SEVENTH)
    } else if same_text(name, "MINOR_NINTH") {
        intervals_of(&MINOR_NINTH)
    } else if same_text(name, "MINOR_SEVENTH") {
        intervals_of(&MINOR_SEVENTH)
    } else if same_text(name, "MINOR_SIXTH") {
        intervals_of(&MINOR_SIXTH)
    } else if same_text(name, "MINOR_SIXTH_NINTH") {
        intervals_of(&MINOR_SIXTH_NINTH)
    } else if same_text(name, "MINOR_THIRTEENTH") {
        intervals_of(&MINOR_THIRTEENTH)
    } else if same_text(name, "MU") {
        intervals_of(&MU)
    } else if same_text(name, "MYSTIC") {
        intervals_of(&MYSTIC)
    } else if same_text(name, "NEAPOLITAN") {
        intervals_of(&NEAPOLITAN)
    } else if same_text(name, "NINTH_AUGMENTED_FIFTH") {
        intervals_of(&NINTH_AUGMENTED_FIFTH)
    } else if same_text(name, "NINTH_FLAT_FIFTH") {
        intervals_of(&NINTH_FLAT_FIFTH)
    } else if same_text(name, "NORTHERN_LIGHTS") {
        intervals_of(&NORTHERN_LIGHTS)
    } else if same_text(name, "ODE_TO_NAPOLEON_HEXACHORD") {
        intervals_of(&ODE_TO_NAPOLEON_HEXACHORD)
    } else if same_text(name, "PETRUSHKA") {
        intervals_of(&PETRUSHKA)
    } else if same_text(name, "POWER") {
        intervals_of(&POWER)
    } else if same_text(name, "PSALMS") {
        intervals_of(&PSALMS)
    } else if same_text(name, "SECONDARY_DOMINANT") {
        intervals_of(&SECONDARY_DOMINANT)
    } else if same_text(name, "SECONDARY_LEADING_TONE") {
        intervals_of(&SECONDARY_LEADING_TONE)
    } else if same_text(name, "SECONDARY_SUPERTONIC") {
        intervals_of(&SECONDARY_SUPERTONIC)
    } else if same_text(name, "SEVEN_SIX") {
        intervals_of(&SEVEN_SIX)
    } else if same_text(name, "SEVENTH_FLAT_NINE") {
        intervals_of(&SEVENTH_FLAT_NINE)
    } else if same_text(name, "SEVENTH_SUSPENSION_FOUR") {
        intervals_of(&SEVENTH_SUSPENSION_FOUR)
    } else if same_text(name, "SO_WHAT") {
        intervals_of(&SO_WHAT)
    } else if same_text(name, "SUSPENDED") {
        intervals_of(&SUSPENDED)
    } else if same_text(name, "SUBDOMINANT") {
        intervals_of(&SUBDOMINANT)
    } else if same_text(name, "SUBDOMINANT_PARALLEL") {
        intervals_of(&SUBDOMINANT_PARALLEL)
    } else if same_text(name, "SUBMEDIANT") {
        intervals_of(&SUBMEDIANT)
    } else if same_text(name, "SUBTONIC") {
        intervals_of(&SUBTONIC)
    } else if same_text(name, "SUPERTONIC") {
        intervals_of(&SUPERTONIC)
    } else if same_text(name, "THIRTEENTH_FLAT_NINTH") {
        intervals_of(&THIRTEENTH_FLAT_NINTH)
    } else if same_text(name, "THIRTEENTH_FLAT_NINTH_FLAT_FIFTH") {
        intervals_of(&THIRTEENTH_FLAT_NINTH_FLAT_FIFTH)
    } else if same_text(name, "TONIC_COUNTER_PARALLEL") {
        intervals_of(&TONIC_COUNTER_PARALLEL)
    } else if same_text(name, "TONIC") {
        intervals_of(&TONIC)
    } else if same_text(name, "TONIC_PARALLEL") {
        intervals_of(&TONIC_PARALLEL)
    } else if same_text(name, "TRISTAN") {
        intervals_of(&TRISTAN)
    } else if same_text(name, "VIENNESE_TRICHORD") {
        intervals_of(&VIENNESE_TRICHORD)
    } else {
        Vec::new()
    }
}

pub fn chords_to_vector() -> (chords: Vec<Vec<i8>>)
    ensures
        chords@.len() == all_chords().len(),
        forall|i: int| 0 <= i < chords@.len() ==> (#[trigger] chords@[i])@ == all_chords()[i],
{
    let mut chords: Vec<Vec<i8>> = Vec::new();
    chords.push(intervals_of(&AUGMENTED));
    chords.push(intervals_of(&AUGMENTED_ELEVENTH));
    chords.push(intervals_of(&AUGMENTED_MAJOR_SEVENTH));
    chords.push(intervals_of(&AUGMENTED_SEVENTH));
    chords.push(intervals_of(&AUGMENTED_SIXTH));
    chords.push(intervals_of(&DIMINISHED));
    chords.push(intervals_of(&DIMINISHED_MAJOR_SEVENTH));
    chords.push(intervals_of(&DIMINISHED_SEVENTH));
    chords.push(intervals_of(&DOMINANT));
    chords.push(intervals_of(&DOMINANT_ELEVENTH));
    chords.push(intervals_of(&DOMINANT_MINOR_NINTH));
    chords.push(intervals_of(&DOMINANT_NINTH));
    chords.push(intervals_of(&DOMINANT_PARALLEL));
    chords.push(intervals_of(&DOMINANT_SEVENTH));
    chords.push(intervals_of(&DOMINANT_SEVENTH_FLAT_FIVE));
    chords.push(intervals_of(&DOMINANT_SEVENTH_RAISED_NINTH));
    chords.push(intervals_of(&DOMINANT_THIRTEENTH));
    chords.push(intervals_of(&DREAM));
    chords.push(intervals_of(&ELEKTRA));
    chords.push(intervals_of(&FARBEN));
    chords.push(intervals_of(&HALF_DIMINISHED_SEVENTH));
    chords.push(intervals_of(&HARMONIC_SEVENTH));
    chords.push(intervals_of(&AUGMENTED_NINTH));
    chords.push(intervals_of(&LEADING_TONE));
    chords.push(intervals_of(&LYDIAN));
    chords.push(intervals_of(&MAGIC));
    chords.push(intervals_of(&MAJOR));
    chords.push(intervals_of(&MAJOR_ELEVENTH));
    chords.push(intervals_of(&MAJOR_SEVENTH));
    chords.push(intervals_of(&MAJOR_SEVENTH_SHARP_ELEVENTH));
    chords.push(intervals_of(&MAJOR_SIXTH));
    chords.push(intervals_of(&MAJOR_SIXTH_NINTH));
    chords.push(intervals_of(&MAJOR_NINTH));
    chords.push(intervals_of(&MAJOR_THIRTEENTH));
    chords.push(intervals_of(&MEDIANT));
    chords.push(intervals_of(&MINOR));
    chords.push(intervals_of(&MINOR_ELEVENTH));
    chords.push(intervals_of(&MINOR_MAJOR_SEVENTH));
    chords.push(intervals_of(&MINOR_NINTH));
    chords.push(intervals_of(&MINOR_SEVENTH));
    chords.push(intervals_of(&MINOR_SIXTH));
    chords.push(intervals_of(&MINOR_SIXTH_NINTH));
    chords.push(intervals_of(&MINOR_THIRTEENTH));
    chords.push(intervals_of(&MU));
    chords.push(intervals_of(&MYSTIC));
    chords.push(intervals_of(&NEAPOLITAN));
    chords.push(intervals_of(&NINTH_AUGMENTED_FIFTH));
    chords.push(intervals_of(&NINTH_FLAT_FIFTH));
    chords.push(intervals_of(&NORTHERN_LIGHTS));
    chords.push(intervals_of(&ODE_TO_NAPOLEON_HEXACHORD));
    chords.push(intervals_of(&PETRUSHKA));
    chords.push(intervals_of(&POWER));
    chords.push(intervals_of(&PSALMS));
    chords.push(intervals_of(&SECONDARY_DOMINANT));
    chords.push(intervals_of(&SECONDARY_LEADING_TONE));
    chords.push(intervals_of(&SECONDARY_SUPERTONIC));
    chords.push(intervals_of(&SEVEN_SIX));
    chords.push(intervals_of(&SEVENTH_FLAT_NINE));
    chords.push(intervals_of(&SEVENTH_SUSPENSION_FOUR));
    chords.push(intervals_of(&SO_WHAT));
    chords.push(intervals_of(&SUSPENDED));
    chords.push(intervals_of(&SUBDOMINANT));
    chords.push(intervals_of(&SUBDOMINANT_PARALLEL));
    chords.push(intervals_of(&SUBMEDIANT));
    chords.push(intervals_of(&SUBTONIC));
    chords.push(intervals_of(&SUPERTONIC));
    chords.push(intervals_of(&THIRTEENTH_FLAT_NINTH));
    chords.push(intervals_of(&THIRTEENTH_FLAT_NINTH_FLAT_FIFTH));
    chords.push(intervals_of(&TONIC_COUNTER_PARALLEL));
    chords.push(intervals_of(&TONIC));
    chords.push(intervals_of(&TONIC_PARALLEL));
    chords.push(intervals_of(&TRISTAN));
    chords.push(intervals_of(&VIENNESE_TRICHORD));
    chords
}

pub fn chord_to_string_array() -> (keywords: Vec<&'static str>)
    ensures
        keywords@.len() == chord_keywords().len(),
        forall|i: int| 0 <= i < keywords@.len() ==> (#[trigger] keywords@[i])@ == chord_keywords()[i],
{
    let mut keywords: Vec<&'static str> = Vec::new();
    keywords.push("AUGMENTED = [0, 4, 8]");
    keywords.push("AUGMENTED_ELEVENTH = [0, 4, 7, 10, 2, 6]");
    keywords.push("AUGMENTED_MAJOR_SEVENTH = [0, 4, 8, 11]");
    keywords.push("AUGMENTED_SEVENTH = [0, 4, 8, 10]");
    keywords.push("AUGMENTED_SIXTH = [0, 6, 8]");
    keywords.push("DIMINISHED = [0, 3, 6]");
    keywords.push("DIMINISHED_MAJOR_SEVENTH = [0, 3, 6, 11]");
    keywords.push("DIMINISHED_SEVENTH = [0, 3, 6, 9]");
    keywords.push("DOMINANT = [0, 4, 7]");
    keywords.push("DOMINANT_ELEVENTH = [0, 4, 7, 10, 2, 5]");
    keywords.push("DOMINANT_MINOR_NINTH = [0, 4, 7, 10, 1]");
    keywords.push("DOMINANT_NINTH = [0, 4, 7, 10, 2]");
    keywords.push("DOMINANT_PARALLEL = [0, 3, 7]");
    keywords.push("DOMINANT_SEVENTH = [0, 4, 7, 10]");
    keywords.push("DOMINANT_SEVENTH_FLAT_FIVE = [0, 4, 6, 10]");
    keywords.push("DOMINANT_SEVENTH_RAISED_NINTH = [0, 4, 7, 10, 3]");
    keywords.push("DOMINANT_THIRTEENTH = [0, 4, 7, 10, 2, 5, 9]");
    keywords.push("DREAM = [0, 5, 6, 7]");
    keywords.push("ELEKTRA = [0, 7, 9, 1, 4]");
    keywords.push("FARBEN = [0, 8, 11, 4, 9]");
    keywords.push("HALF_DIMINISHED_SEVENTH = [0, 3, 6, 10]");
    keywords.push("HARMONIC_SEVENTH = [0, 4, 7, 10]");
    keywords.push("AUGMENTED_NINTH = [0, 4, 7, 10, 3]");
    keywords.push("LEADING_TONE = [0, 3, 6]");
    keywords.push("LYDIAN = [0, 4, 7, 11, 6]");
    keywords.push("MAGIC = [0, 1, 5, 6, 10, 0, 3, 5]");
    keywords.push("MAJOR = [0, 4, 7]");
    keywords.push("MAJOR_ELEVENTH = [0, 4, 7, 11, 2, 5]");
    keywords.push("MAJOR_SEVENTH = [0, 4, 7, 11]");
    keywords.push("MAJOR_SEVENTH_SHARP_ELEVENTH = [0, 4, 8, 11, 6]");
    keywords.push("MAJOR_SIXTH = [0, 4, 7, 9]");
    keywords.push("MAJOR_SIXTH_NINTH = [0, 4, 7, 9, 2]");
    keywords.push("MAJOR_NINTH = [0, 4, 7, 11, 2]");
    keywords.push("MAJOR_THIRTEENTH = [0, 4, 7, 11, 2, 6, 9]");
    keywords.push("MEDIANT = [0, 3, 7]");
    keywords.push("MINOR = [0, 3, 7]");
    keywords.push("MINOR_ELEVENTH = [0, 3, 7, 10, 2, 5]");
    keywords.push("MINOR_MAJOR_SEVENTH = [0, 3, 7, 11]");
    keywords.push("MINOR_NINTH = [0, 3, 7, 10, 2]");
    keywords.push("MINOR_SEVENTH = [0, 3, 7, 10]");
    keywords.push("MINOR_SIXTH = [0, 3, 7, 9]");
    keywords.push("MINOR_SIXTH_NINTH = [0, 3, 7, 9, 2]");
    keywords.push("MINOR_THIRTEENTH = [0, 3, 7, 10, 2, 5, 9]");
    keywords.push("MU = [0, 2, 4, 7]");
    keywords.push("MYSTIC = [0, 6, 10, 4, 9, 2]");
    keywords.push("NEAPOLITAN = [1, 5, 8]");
    keywords.push("NINTH_AUGMENTED_FIFTH = [0, 4, 8, 10, 2]");
    keywords.push("NINTH_FLAT_FIFTH = [0, 4, 6, 10, 2]");
    keywords.push("NORTHERN_LIGHTS = [1, 2, 8, 0, 3, 6, 7, 10, 11, 4, 7]");
    keywords.push("ODE_TO_NAPOLEON_HEXACHORD = [0, 1, 4, 5, 8, 9]");
    keywords.push("PETRUSHKA = [0, 1, 4, 6, 7, 10]");
    keywords.push("POWER = [0, 7]");
    keywords.push("PSALMS = [0, 3, 7]");
    keywords.push("SECONDARY_DOMINANT = [0, 4, 7]");
    keywords.push("SECONDARY_LEADING_TONE = [0, 3, 6]");
    keywords.push("SECONDARY_SUPERTONIC = [0, 3, 7]");
    keywords.push("SEVEN_SIX = [0, 4, 7, 9, 10]");
    keywords.push("SEVENTH_FLAT_NINE = [0, 4, 7, 10, 1]");
    keywords.push("SEVENTH_SUSPENSION_FOUR = [0, 5, 7, 10]");
    keywords.push("SO_WHAT = [0, 5, 10, 3, 7]");
    keywords.push("SUSPENDED = [0, 5, 7]");
    keywords.push("SUBDOMINANT = [0, 4, 7]");
    keywords.push("SUBDOMINANT_PARALLEL = [0, 3, 7]");
    keywords.push("SUBMEDIANT = [0, 3, 7]");
    keywords.push("SUBTONIC = [0, 4, 7]");
    keywords.push("SUPERTONIC = [0, 3, 7]");
    keywords.push("THIRTEENTH_FLAT_NINTH = [0, 4, 7, 10, 1, 12, 9]");
    keywords.push("THIRTEENTH_FLAT_NINTH_FLAT_FIFTH = [0, 4, 6, 10, 1, 12, 9]");
    keywords.push("TONIC_COUNTER_PARALLEL = [0, 3, 7]");
    keywords.push("TONIC = [0, 4, 7]");
    keywords.push("TONIC_PARALLEL = [0, 3, 7]");
    keywords.push("TRISTAN = [0, 3, 6, 10]");
    keywords.push("VIENNESE_TRICHORD = [0, 1, 6, 7]");
    keywords
}

/// The chords a composition declares, as plain values.
pub open spec fn custom_chords_view(chords: &CustomChords) -> Seq<(Seq<char>, Seq<i8>)> {
    Seq::new(chords@.len(), |i: int| (chords@[i].0@, chords@[i].1@))
}

/// The intervals of each declared chord, in the order of declaration.
pub open spec fn declared_intervals(custom: Seq<(Seq<char>, Seq<i8>)>) -> Seq<Seq<i8>> {
    Seq::new(custom.len(), |i: int| custom[i].1)
}

/// The intervals of the first declared chord whose name, white space at its
/// ends aside, is `name`; empty where there is none.
pub open spec fn custom_intervals(name: Seq<char>, custom: Seq<(Seq<char>, Seq<i8>)>) -> Seq<i8>
    decreases custom.len(),
{
    if custom.len() == 0 {
        Seq::<i8>::empty()
    } else if trimmed(custom[0].0) == trimmed(name) {
        custom[0].1
    } else {
        custom_intervals(name, custom.subrange(1, custom.len() as int))
    }
}

/// The intervals a chord name stands for: those of the built-in chord of that
/// name, else those of the first declared chord of that name, else none.
pub open spec fn named_intervals(token: Seq<char>, custom: Seq<(Seq<char>, Seq<i8>)>) -> Seq<i8> {
    let built_in = chord_intervals(trimmed(token));
    if built_in.len() > 0 {
        built_in
    } else {
        custom_intervals(token, custom)
    }
}

/// The token that asks for any one of the declared chords.
pub open spec fn is_any_declared(token: Seq<char>) -> bool {
    trimmed(token) == "?"@
}

/// The token that asks for any one of the built-in and declared chords.
pub open spec fn is_any_chord(token: Seq<char>) -> bool {
    !is_any_declared(token) && trimmed(token) == "??"@
}

/// The interval sequences a token may resolve to.
pub open spec fn candidates(token: Seq<char>, custom: Seq<(Seq<char>, Seq<i8>)>) -> Seq<Seq<i8>> {
    if is_any_declared(token) {
        declared_intervals(custom)
    } else if is_any_chord(token) {
        all_chords() + declared_intervals(custom)
    } else {
        seq![named_intervals(token, custom)]
    }
}

/// The intervals a token resolves to when `choice` is the index drawn among
/// its candidates. A chord name has one candidate and resolves to it
/// whatever the index; a choice outside the candidates gives no intervals.
pub open spec fn resolve(token: Seq<char>, custom: Seq<(Seq<char>, Seq<i8>)>, choice: int) -> Seq<
    i8,
> {
    if is_any_declared(token) || is_any_chord(token) {
        if 0 <= choice < candidates(token, custom).len() {
            candidates(token, custom)[choice]
        } else {
            Seq::<i8>::empty()
        }
    } else {
        named_intervals(token, custom)
    }
}

/// Whether `intervals` is one of the candidates of a token, or empty where
/// the token has no candidate.
pub open spec fn is_resolution(
    token: Seq<char>,
    custom: Seq<(Seq<char>, Seq<i8>)>,
    intervals: Seq<i8>,
) -> bool {
    let among = candidates(token, custom);
    if among.len() == 0 {
        intervals == Seq::<i8>::empty()
    } else {
        exists|k: int| 0 <= k < among.len() && #[trigger] among[k] == intervals
    }
}

/// The pitches of a chord: each interval, moved by `transpose` semitones,
/// counted from the lowest pitch and held within the range of pitches.
pub open spec fn chord_pitches(intervals: Seq<i8>, transpose: int) -> Seq<u8> {
    Seq::new(intervals.len(), |i: int| pitch_at(intervals[i] + transpose) as u8)
}

/// Draws an index below `bound` with `rand::Rng::gen_range` on the generator
/// that `rand::thread_rng` hands out. Which index comes is left open: the
/// contract says only that it lies below `bound`.
#[verifier::external_body]
fn random_index(bound: usize) -> (index: usize)
    requires
        bound > 0,
    ensures
        index < bound,
{
    rand::thread_rng().gen_range(0, bound)
}

/// A chord as intervals above its root, with a transposition that is
/// applied when the chord is turned into pitches.
pub struct IntervalChord {
    pub intervals: Vec<i8>,
    pub transpose: i32,
}

impl IntervalChord {
    /// The built-in chord of the given name; a chord without intervals where
    /// the name is unknown.
    pub fn from_string(interval_chord_string: &str) -> (chord: IntervalChord)
        ensures
            chord.intervals@ == chord_intervals(trimmed(interval_chord_string@)),
            chord.transpose == 0,
    {
        IntervalChord { intervals: string_to_chord(trim(interval_chord_string)), transpose: 0 }
    }

    /// Resolves a token with `choice` as the index drawn among its
    /// candidates.
    pub fn from_string_with_choice(
        interval_chord_string: &str,
        custom_chords: &CustomChords,
        choice: usize,
    ) -> (chord: IntervalChord)
        ensures
            chord.intervals@ == resolve(
                interval_chord_string@,
                custom_chords_view(custom_chords),
                choice as int,
            ),
            chord.transpose == 0,
    {
        let ghost custom = custom_chords_view(custom_chords);
        let token = trim(interval_chord_string);
        if same_text(token, "?") {
            if choice < custom_chords.len() {
                let intervals = custom_chords[choice].1.clone();
                IntervalChord { intervals, transpose: 0 }
            } else {
                IntervalChord { intervals: Vec::new(), transpose: 0 }
            }
        } else if same_text(token, "??") {
            let built_in = chords_to_vector();
            if choice < built_in.len() {
                let intervals = built_in[choice].clone();
                assert((all_chords() + declared_intervals(custom))[choice as int]
                    == all_chords()[choice as int]);
                IntervalChord { intervals, transpose: 0 }
            } else if choice - built_in.len() < custom_chords.len() {
                let intervals = custom_chords[choice - built_in.len()].1.clone();
                assert((all_chords() + declared_intervals(custom))[choice as int]
                    == declared_intervals(custom)[choice - all_chords().len()]);
                IntervalChord { intervals, transpose: 0 }
            } else {
                IntervalChord { intervals: Vec::new(), transpose: 0 }
            }
        } else {
            let mut chord = IntervalChord::from_string(interval_chord_string);
            if chord.intervals.is_empty() {
                let mut i: usize = 0;
                let mut found = false;
                assert(custom.subrange(0, custom.len() as int) =~= custom);
                while i < custom_chords.len() && !found
                    invariant
                        i <= custom_chords.len(),
                        !found ==> chord.intervals@.len() == 0,
                        custom == custom_chords_view(custom_chords),
                        token@ == trimmed(interval_chord_string@),
                        chord.transpose == 0,
                        !found ==> custom_intervals(interval_chord_string@, custom)
                            == custom_intervals(
                            interval_chord_string@,
                            custom.subrange(i as int, custom.len() as int),
                        ),
                        found ==> chord.intervals@ == custom_intervals(
                            interval_chord_string@,
                            custom,
                        ),
                    decreases custom_chords.len() - i + if found { 0int } else { 1int },
                {
                    proof {
                        let rest = custom.subrange(i as int, custom.len() as int);
                        assert(rest[0] == custom[i as int]);
                        assert(rest.subrange(1, rest.len() as int) =~= custom.subrange(
                            i + 1,
                            custom.len() as int,
                        ));
                    }
                    if same_text(trim(custom_chords[i].0.as_str()), token) {
                        chord.intervals = custom_chords[i].1.clone();
                        found = true;
                    } else {
                        i += 1;
                    }
                }
            }
            chord
        }
    }

    /// Resolves a token. A chord name resolves to its intervals. The tokens
    /// `?` and `??` resolve to one of their candidates, drawn at random; a
    /// token without candidates resolves to no intervals.
    pub fn from_string_with_custom(
        interval_chord_string: &str,
        custom_chords: &CustomChords,
    ) -> (chord: IntervalChord)
        ensures
            is_resolution(
                interval_chord_string@,
                custom_chords_view(custom_chords),
                chord.intervals@,
            ),
            !is_any_declared(interval_chord_string@) && !is_any_chord(interval_chord_string@)
                ==> chord.intervals@ == named_intervals(
                interval_chord_string@,
                custom_chords_view(custom_chords),
            ),
            chord.transpose == 0,
    {
        let ghost custom = custom_chords_view(custom_chords);
        let ghost among = candidates(interval_chord_string@, custom);
        let token = trim(interval_chord_string);
        let mut choice: usize = 0;
        if same_text(token, "?") {
            if custom_chords.len() > 0 {
                choice = random_index(custom_chords.len());
            }
        } else if same_text(token, "??") {
            let bound = candidate_count(custom_chords);
            choice = random_index(bound);
        }
        let chord = IntervalChord::from_string_with_choice(
            interval_chord_string,
            custom_chords,
            choice,
        );
        proof {
            if among.len() > 0 {
                assert(among[choice as int] == chord.intervals@);
            }
        }
        chord
    }

    pub fn new(intervals: Vec<i8>, transpose: i8) -> (chord: IntervalChord)
        ensures
            chord.intervals == intervals,
            chord.transpose == transpose,
    {
        IntervalChord { intervals, transpose: transpose as i32 }
    }

    /// The pitches of the chord, with its transposition applied.
    pub fn to_midi(&self) -> (pitches: Vec<u8>)
        ensures
            pitches@ == chord_pitches(self.intervals@, self.transpose as int),
            forall|i: int| 0 <= i < pitches@.len() ==> MIN_PITCH <= #[trigger] pitches@[i] <= MAX_PITCH,
    {
        let mut resolved_notes: Vec<u8> = Vec::new();
        let mut i: usize = 0;
        while i < self.intervals.len()
            invariant
                i <= self.intervals@.len(),
                resolved_notes@ == chord_pitches(self.intervals@, self.transpose as int).subrange(
                    0,
                    i as int,
                ),
            decreases self.intervals@.len() - i,
        {
            let midi_note = pitch_from_offset(self.intervals[i] as i64 + self.transpose as i64);
            resolved_notes.push(midi_note);
            assert(resolved_notes@ =~= chord_pitches(
                self.intervals@,
                self.transpose as int,
            ).subrange(0, i + 1));
            i += 1;
        }
        assert(resolved_notes@ =~= chord_pitches(self.intervals@, self.transpose as int));
        resolved_notes
    }

    /// Moves the chord by `transpose_delta` semitones.
    pub fn transpose(&mut self, transpose_delta: i8) -> (chord: &mut Self)
        requires
            i32::MIN <= old(self).transpose + transpose_delta <= i32::MAX,
        ensures
            chord.intervals == old(self).intervals,
            chord.transpose == old(self).transpose + transpose_delta,
            *final(self) == *final(chord),
    {
        self.transpose = self.transpose + transpose_delta as i32;
        self
    }

    /// Moves the chord by `octave_delta` octaves.
    pub fn transpose_octave(&mut self, octave_delta: i8) -> (chord: &mut Self)
        requires
            i32::MIN <= old(self).transpose + octave_delta * NOTES_IN_OCTAVE <= i32::MAX,
        ensures
            chord.intervals == old(self).intervals,
            chord.transpose == old(self).transpose + octave_delta * NOTES_IN_OCTAVE,
            *final(self) == *final(chord),
    {
        self.transpose = self.transpose + (octave_delta as i32) * (NOTES_IN_OCTAVE as i32);
        self
    }

    pub fn is_empty(&self) -> (empty: bool)
        ensures
            empty == (self.intervals@.len() == 0),
    {
        self.intervals.is_empty()
    }

    /// The interval at `index`, with the transposition applied.
    pub fn get_interval(&self, index: usize) -> (interval: i32)
        requires
            index < self.intervals@.len(),
            i32::MIN <= self.intervals@[index as int] + self.transpose <= i32::MAX,
        ensures
            interval == self.intervals@[index as int] + self.transpose,
    {
        self.intervals[index] as i32 + self.transpose
    }

    pub fn len(&self) -> (len: usize)
        ensures
            len == self.intervals@.len(),
    {
        self.intervals.len()
    }
}

/// The number of candidates of the token that asks for any chord, held to
/// the largest number there is.
fn candidate_count(custom_chords: &CustomChords) -> (count: usize)
    ensures
        0 < count <= all_chords().len() + custom_chords@.len(),
        all_chords().len() + custom_chords@.len() <= usize::MAX ==> count == all_chords().len()
            + custom_chords@.len(),
{
    let built_in: usize = 73;
    if custom_chords.len() <= usize::MAX - built_in {
        built_in + custom_chords.len()
    } else {
        usize::MAX
    }
}

} // verus!
