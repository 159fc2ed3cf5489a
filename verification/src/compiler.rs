//! The compiler: from the description of a composition to its timeline.
//!
//! Patterns are compiled in the order given, and the events of a pattern in
//! the order given. The first fault found ends the compilation with that
//! fault: no part of a composition is handed out.

use crate::io::deseralizer::{
    default_key, CompositionParameters, CustomChords, MasterParameters, PatternObject,
    PatternParameters, DEFAULT_SIGNATURE, DEFAULT_TIME,
};
use crate::music_time::MusicTime;
use crate::text::{decimal_digits, decimal_text};
use crate::theory::chords::{
    candidates, chord_pitches, custom_chords_view, is_any_chord, is_any_declared, is_resolution,
    named_intervals, IntervalChord,
};
use crate::theory::composition::{
    all_reachable, is_reachable, pitches_in_range, strictly_increasing, Composition,
    CompositionView, EventView, Pattern, PatternView,
};
use crate::theory::notes::{key_index, key_named, key_to_index, string_to_key, NOTES_IN_OCTAVE};
use crate::time_signature::TimeSignature;
use crate::{FailResult, FailView, PLAYBACK_OCTAVE};
use vstd::prelude::*;

verus! {

/// The key of a pattern: its own where it gives one, else that of the
/// composition, else the default.
pub open spec fn merged_key(
    defaults: Option<MasterParameters>,
    overrides: Option<MasterParameters>,
) -> Seq<char> {
    if overrides.is_some() && overrides.unwrap().key.is_some() {
        overrides.unwrap().key_or_default()
    } else if defaults.is_some() {
        defaults.unwrap().key_or_default()
    } else {
        default_key()
    }
}

/// The tempo of a pattern: its own where it gives one, else that of the
/// composition, else the default.
pub open spec fn merged_time(
    defaults: Option<MasterParameters>,
    overrides: Option<MasterParameters>,
) -> u8 {
    if overrides.is_some() && overrides.unwrap().time.is_some() {
        overrides.unwrap().time_or_default()
    } else if defaults.is_some() {
        defaults.unwrap().time_or_default()
    } else {
        DEFAULT_TIME
    }
}

/// The time signature of a pattern: its own where it gives one, else that
/// of the composition, else the default.
pub open spec fn merged_signature(
    defaults: Option<MasterParameters>,
    overrides: Option<MasterParameters>,
) -> TimeSignature {
    let pair = if overrides.is_some() && overrides.unwrap().signature.is_some() {
        overrides.unwrap().signature_or_default()
    } else if defaults.is_some() {
        defaults.unwrap().signature_or_default()
    } else {
        DEFAULT_SIGNATURE
    };
    TimeSignature { numerator: pair.0, denominator: pair.1 }
}

/// The name of the pattern at `index`: the one given, else a name made of
/// the index.
pub open spec fn pattern_name(pattern: PatternParameters, index: int) -> Seq<char> {
    match pattern.name {
        Some(name) => name@,
        None => "unnamed_pattern_"@ + decimal_digits(index as nat),
    }
}

/// The chords that a description declares.
pub open spec fn declared_chords(params: &CompositionParameters) -> Seq<(Seq<char>, Seq<i8>)> {
    match params.chords {
        Some(chords) => custom_chords_view(&chords),
        None => Seq::empty(),
    }
}

/// The time at which a described event lies.
pub open spec fn event_time(event: PatternObject) -> MusicTime {
    MusicTime { bar: event.0, beat: event.1, beat_interval: event.2 }
}

/// The semitones by which the intervals of a described event are moved: the
/// key of its pattern, its own transposition and the playback octave.
pub open spec fn event_offset(key: Seq<char>, event: PatternObject) -> int {
    key_index(key_named(key)) + event.4 + PLAYBACK_OCTAVE * NOTES_IN_OCTAVE
}

/// What is wrong with a described event.
pub enum EventFault {
    /// The clock never reaches the event, or the event does not come later
    /// than the one before it.
    Unreachable,
    /// The event comes earlier than the one before it.
    Reverse,
}

/// The fault of the event at `index`, taken together with the event before
/// it.
pub open spec fn event_fault(
    events: Seq<PatternObject>,
    signature: TimeSignature,
    index: int,
) -> Option<EventFault> {
    let time = event_time(events[index]);
    if !is_reachable(time, signature) {
        Some(EventFault::Unreachable)
    } else if index > 0 && time == event_time(events[index - 1]) {
        Some(EventFault::Unreachable)
    } else if index > 0 && time.is_before(&event_time(events[index - 1])) {
        Some(EventFault::Reverse)
    } else {
        None
    }
}

/// The failure of the first faulty event at or behind `from`.
pub open spec fn events_failure(
    events: Seq<PatternObject>,
    signature: TimeSignature,
    from: int,
) -> Option<FailView>
    decreases events.len() - from,
{
    if from < 0 || from >= events.len() {
        None
    } else {
        match event_fault(events, signature, from) {
            Some(EventFault::Unreachable) => Some(
                FailView::UnreachableTime(event_time(events[from]), from, events[from].3@),
            ),
            Some(EventFault::Reverse) => Some(
                FailView::TimeReverse(event_time(events[from]), from, events[from].3@),
            ),
            None => events_failure(events, signature, from + 1),
        }
    }
}

/// The failure of a described pattern: it lacks its list of events, its
/// time signature is not valid, or one of its events is faulty.
pub open spec fn pattern_failure(
    defaults: Option<MasterParameters>,
    pattern: PatternParameters,
) -> Option<FailView> {
    match pattern.pattern {
        None => Some(FailView::NoPatterns),
        Some(events) => {
            let signature = merged_signature(defaults, pattern.master);
            if !signature.valid() {
                Some(FailView::TimeSignature(signature))
            } else {
                events_failure(events@, signature, 0)
            }
        },
    }
}

/// The failure of the first pattern at or behind `from` that has one.
pub open spec fn patterns_failure(
    defaults: Option<MasterParameters>,
    patterns: Seq<PatternParameters>,
    from: int,
) -> Option<FailView>
    decreases patterns.len() - from,
{
    if from < 0 || from >= patterns.len() {
        None
    } else {
        match pattern_failure(defaults, patterns[from]) {
            Some(failure) => Some(failure),
            None => patterns_failure(defaults, patterns, from + 1),
        }
    }
}

/// The failure with which the compilation of a description ends, if it
/// fails: the description has no list of patterns, the list is empty, or a
/// pattern fails.
pub open spec fn compile_failure(params: &CompositionParameters) -> Option<FailView> {
    match params.patterns {
        None => Some(FailView::NoPatterns),
        Some(patterns) => if patterns@.len() == 0 {
            Some(FailView::EmptyPatterns)
        } else {
            patterns_failure(params.master, patterns@, 0)
        },
    }
}

/// Whether `pitches` are those of a chord token under the given offset: of
/// the chord that the token names, or of one of its candidates where the
/// token asks for any chord.
pub open spec fn is_event_pitches(
    token: Seq<char>,
    custom: Seq<(Seq<char>, Seq<i8>)>,
    offset: int,
    pitches: Seq<u8>,
) -> bool {
    if is_any_declared(token) || is_any_chord(token) {
        exists|intervals: Seq<i8>| #[trigger]
            is_resolution(token, custom, intervals) && pitches == chord_pitches(intervals, offset)
    } else {
        pitches == chord_pitches(named_intervals(token, custom), offset)
    }
}

/// Whether `compiled` is what a described event compiles to.
pub open spec fn is_compiled_event(
    event: PatternObject,
    custom: Seq<(Seq<char>, Seq<i8>)>,
    key: Seq<char>,
    compiled: EventView,
) -> bool {
    &&& compiled.0 == event_time(event)
    &&& is_event_pitches(event.3@, custom, event_offset(key, event), compiled.1)
}

/// Whether `compiled` is what the described pattern at `index` compiles to.
pub open spec fn is_compiled_pattern(
    params: &CompositionParameters,
    pattern: PatternParameters,
    index: int,
    compiled: PatternView,
) -> bool {
    &&& pattern.pattern.is_some()
    &&& compiled.name == pattern_name(pattern, index)
    &&& compiled.bpm == merged_time(params.master, pattern.master)
    &&& compiled.signature == merged_signature(params.master, pattern.master)
    &&& compiled.events.len() == pattern.pattern.unwrap()@.len()
    &&& forall|k: int|
        0 <= k < compiled.events.len() ==> is_compiled_event(
            pattern.pattern.unwrap()@[k],
            declared_chords(params),
            merged_key(params.master, pattern.master),
            #[trigger] compiled.events[k],
        )
}

/// Whether `compiled` is what a description compiles to.
pub open spec fn is_compilation(params: &CompositionParameters, compiled: CompositionView) -> bool {
    &&& params.patterns.is_some()
    &&& compiled.name == params.name_or_default()
    &&& compiled.patterns.len() == params.patterns.unwrap()@.len()
    &&& forall|i: int|
        0 <= i < compiled.patterns.len() ==> is_compiled_pattern(
            params,
            params.patterns.unwrap()@[i],
            i,
            #[trigger] compiled.patterns[i],
        )
}

/// The failure that a fault of the event at `index` stands for.
pub open spec fn fault_failure(
    events: Seq<PatternObject>,
    index: int,
    fault: EventFault,
) -> FailView {
    match fault {
        EventFault::Unreachable => FailView::UnreachableTime(
            event_time(events[index]),
            index,
            events[index].3@,
        ),
        EventFault::Reverse => FailView::TimeReverse(
            event_time(events[index]),
            index,
            events[index].3@,
        ),
    }
}

/// Where no event from `from` up to `index` is faulty and the event at
/// `index` is, the events fail with the fault of that event.
pub proof fn lemma_first_faulty_event(
    events: Seq<PatternObject>,
    signature: TimeSignature,
    from: int,
    index: int,
)
    requires
        0 <= from <= index < events.len(),
        forall|k: int| from <= k < index ==> event_fault(events, signature, k).is_none(),
        event_fault(events, signature, index).is_some(),
    ensures
        events_failure(events, signature, from) == Some(
            fault_failure(events, index, event_fault(events, signature, index).unwrap()),
        ),
    decreases index - from,
{
    if from < index {
        lemma_first_faulty_event(events, signature, from + 1, index);
    }
}

/// Where no pattern from `from` up to `index` fails and the pattern at
/// `index` does, the patterns fail as that pattern does.
pub proof fn lemma_first_failing_pattern(
    defaults: Option<MasterParameters>,
    patterns: Seq<PatternParameters>,
    from: int,
    index: int,
)
    requires
        0 <= from <= index < patterns.len(),
        forall|j: int| from <= j < index ==> pattern_failure(defaults, patterns[j]).is_none(),
        pattern_failure(defaults, patterns[index]).is_some(),
    ensures
        patterns_failure(defaults, patterns, from) == pattern_failure(defaults, patterns[index]),
    decreases index - from,
{
    if from < index {
        lemma_first_failing_pattern(defaults, patterns, from + 1, index);
    }
}

/// Compilation fails fast. Where the patterns before the one at `pattern`
/// are without failure, and in that pattern the events before the one at
/// `event` are without fault while that event is faulty, the compilation
/// fails with the fault of that event, whatever the patterns and events
/// behind it hold.
pub proof fn lemma_compilation_fails_fast(
    params: &CompositionParameters,
    pattern: int,
    event: int,
)
    requires
        params.patterns.is_some(),
        0 <= pattern < params.patterns.unwrap()@.len(),
        forall|j: int|
            0 <= j < pattern ==> pattern_failure(params.master, params.patterns.unwrap()@[j]).is_none(),
        params.patterns.unwrap()@[pattern].pattern.is_some(),
        merged_signature(params.master, params.patterns.unwrap()@[pattern].master).valid(),
        0 <= event < params.patterns.unwrap()@[pattern].pattern.unwrap()@.len(),
        forall|k: int|
            0 <= k < event ==> event_fault(
                params.patterns.unwrap()@[pattern].pattern.unwrap()@,
                merged_signature(params.master, params.patterns.unwrap()@[pattern].master),
                k,
            ).is_none(),
        event_fault(
            params.patterns.unwrap()@[pattern].pattern.unwrap()@,
            merged_signature(params.master, params.patterns.unwrap()@[pattern].master),
            event,
        ).is_some(),
    ensures
        compile_failure(params) == Some(
            fault_failure(
                params.patterns.unwrap()@[pattern].pattern.unwrap()@,
                event,
                event_fault(
                    params.patterns.unwrap()@[pattern].pattern.unwrap()@,
                    merged_signature(params.master, params.patterns.unwrap()@[pattern].master),
                    event,
                ).unwrap(),
            ),
        ),
{
    let patterns = params.patterns.unwrap()@;
    let events = patterns[pattern].pattern.unwrap()@;
    let signature = merged_signature(params.master, patterns[pattern].master);
    lemma_first_faulty_event(events, signature, 0, event);
    lemma_first_failing_pattern(params.master, patterns, 0, pattern);
}

/// A chord name resolves to the same pitches every time: under the same
/// declared chords and the same offset, any two outcomes are equal.
pub proof fn lemma_named_chord_is_deterministic(
    token: Seq<char>,
    custom: Seq<(Seq<char>, Seq<i8>)>,
    offset: int,
    first: Seq<u8>,
    second: Seq<u8>,
)
    requires
        !is_any_declared(token),
        !is_any_chord(token),
        is_event_pitches(token, custom, offset, first),
        is_event_pitches(token, custom, offset, second),
    ensures
        first == second,
{
}

/// The pitches of a token that asks for any chord are those of one of its
/// candidates; where it has no candidate, there are no pitches.
pub proof fn lemma_any_chord_is_a_candidate(
    token: Seq<char>,
    custom: Seq<(Seq<char>, Seq<i8>)>,
    offset: int,
    pitches: Seq<u8>,
)
    requires
        is_any_declared(token) || is_any_chord(token),
        is_event_pitches(token, custom, offset, pitches),
    ensures
        candidates(token, custom).len() == 0 ==> pitches.len() == 0,
        candidates(token, custom).len() > 0 ==> exists|k: int|
            0 <= k < candidates(token, custom).len() && pitches == chord_pitches(
                #[trigger] candidates(token, custom)[k],
                offset,
            ),
{
    let intervals = choose|intervals: Seq<i8>| #[trigger]
        is_resolution(token, custom, intervals) && pitches == chord_pitches(intervals, offset);
    let among = candidates(token, custom);
    if among.len() > 0 {
        let k = choose|k: int| 0 <= k < among.len() && #[trigger] among[k] == intervals;
        assert(pitches == chord_pitches(among[k], offset));
    }
}

/// The pitches of a described event in a pattern whose key lies
/// `key_offset` semitones above C.
fn event_pitches(event: &PatternObject, chords: &CustomChords, key_offset: u8) -> (pitches: Vec<u8>)
    requires
        key_offset <= 11,
    ensures
        is_event_pitches(
            event.3@,
            custom_chords_view(chords),
            key_offset + event.4 + PLAYBACK_OCTAVE * NOTES_IN_OCTAVE,
            pitches@,
        ),
        pitches_in_range(seq![(event_time(*event), pitches@)]),
{
    let mut chord = IntervalChord::from_string_with_custom(event.3.as_str(), chords);
    chord.transpose(key_offset as i8);
    chord.transpose(event.4);
    chord.transpose_octave(PLAYBACK_OCTAVE);
    chord.to_midi()
}

/// The values in force for a pattern: key, tempo and time signature.
fn merged_master(defaults: &Option<MasterParameters>, overrides: &Option<MasterParameters>) -> (master:
    (String, u8, TimeSignature))
    ensures
        master.0@ == merged_key(*defaults, *overrides),
        master.1 == merged_time(*defaults, *overrides),
        master.2 == merged_signature(*defaults, *overrides),
{
    let built_in = MasterParameters::default();
    let base: &MasterParameters = match defaults {
        Some(master) => master,
        None => &built_in,
    };
    let (key, time, signature) = match overrides {
        Some(pattern_master) => {
            MasterParameters::from_overrides(base, pattern_master).get_all_or_defaults()
        },
        None => base.get_all_or_defaults(),
    };
    (key, time, TimeSignature::new(signature.0, signature.1))
}

/// Compiles the described pattern at `index`.
pub fn compile_pattern(
    params: &CompositionParameters,
    pattern: &PatternParameters,
    index: usize,
) -> (compiled: Result<Pattern, FailResult>)
    ensures
        match compiled {
            Ok(compiled) => {
                &&& pattern_failure(params.master, *pattern).is_none()
                &&& is_compiled_pattern(params, *pattern, index as int, compiled@)
                &&& compiled@.valid()
            },
            Err(failure) => pattern_failure(params.master, *pattern) == Some(failure@),
        },
{
    let events = match &pattern.pattern {
        Some(events) => events,
        None => { return Err(FailResult::NoPatterns); },
    };
    let (key, bpm, signature) = merged_master(&params.master, &pattern.master);
    let name = match &pattern.name {
        Some(name) => name.clone(),
        None => "unnamed_pattern_".to_owned().concat(decimal_text(index).as_str()),
    };
    if !signature.is_valid() {
        return Err(FailResult::TimeSignature(signature));
    }
    let no_chords: CustomChords = Vec::new();
    let chords: &CustomChords = match &params.chords {
        Some(chords) => chords,
        None => &no_chords,
    };
    assert(custom_chords_view(chords) =~= declared_chords(params));
    let key_offset = key_to_index(string_to_key(key.as_str()));
    let mut compiled = Pattern::new(name.as_str(), bpm, signature);
    let mut k: usize = 0;
    while k < events.len()
        invariant
            k <= events@.len(),
            pattern.pattern == Some(*events),
            signature.valid(),
            signature == merged_signature(params.master, pattern.master),
            key@ == merged_key(params.master, pattern.master),
            key_offset == key_index(key_named(key@)),
            key_offset <= 11,
            custom_chords_view(chords) == declared_chords(params),
            compiled@.name == pattern_name(*pattern, index as int),
            compiled@.bpm == merged_time(params.master, pattern.master),
            compiled@.signature == signature,
            compiled@.events.len() == k,
            forall|j: int|
                0 <= j < k ==> is_compiled_event(
                    events@[j],
                    declared_chords(params),
                    key@,
                    #[trigger] compiled@.events[j],
                ),
            strictly_increasing(compiled@.events),
            all_reachable(compiled@.events, signature),
            pitches_in_range(compiled@.events),
            events_failure(events@, signature, 0) == events_failure(events@, signature, k as int),
        decreases events@.len() - k,
    {
        let event = &events[k];
        let time = MusicTime::new(event.0, event.1, event.2);
        let reachable = time.get_bar() >= 1 && 1 <= time.get_beat() && time.get_beat()
            <= signature.get_numerator() && 1 <= time.get_beat_interval()
            && time.get_beat_interval() <= 8;
        if !reachable {
            return Err(FailResult::UnreachableTime(time, k, event.3.clone()));
        }
        if k > 0 {
            let previous_time = compiled.get(k - 1).0;
            if time.same_as(&previous_time) {
                return Err(FailResult::UnreachableTime(time, k, event.3.clone()));
            }
            if time.precedes(&previous_time) {
                return Err(FailResult::TimeReverse(time, k, event.3.clone()));
            }
        }
        let pitches = event_pitches(event, chords, key_offset);
        let ghost before = compiled@.events;
        compiled.push_event(time, pitches);
        proof {
            let after = compiled@.events;
            assert(event_fault(events@, signature, k as int).is_none());
            assert forall|j: int| 0 <= j < k + 1 implies is_compiled_event(
                events@[j],
                declared_chords(params),
                key@,
                #[trigger] after[j],
            ) by {
                if j < k {
                    assert(after[j] == before[j]);
                }
            }
            assert forall|j: int| 0 <= j && j + 1 < after.len() implies (#[trigger] after[j]).0.is_before(
                &after[j + 1].0,
            ) by {
                if j + 1 < k {
                    assert(after[j] == before[j] && after[j + 1] == before[j + 1]);
                } else {
                    assert(after[j] == before[j]);
                    assert(is_compiled_event(
                        events@[j],
                        declared_chords(params),
                        key@,
                        before[j],
                    ));
                }
            }
            assert forall|j: int| 0 <= j < after.len() implies is_reachable(
                (#[trigger] after[j]).0,
                signature,
            ) by {
                if j < k {
                    assert(after[j] == before[j]);
                }
            }
            assert forall|i: int, j: int|
                0 <= i < after.len() && 0 <= j < after[i].1.len() implies crate::theory::notes::MIN_PITCH
                <= (#[trigger] after[i].1[j]) <= crate::theory::notes::MAX_PITCH by {
                if i < k {
                    assert(after[i] == before[i]);
                } else {
                    let single = seq![(event_time(*event), pitches@)];
                    assert(single[0].1[j] == pitches@[j]);
                }
            }
        }
        k += 1;
    }
    Ok(compiled)
}

/// Compiles the description of a composition into its timeline.
///
/// Fails where the description has no list of patterns or an empty one,
/// and with the failure of the first pattern that has one. Otherwise the
/// composition holds one valid pattern for each described pattern, in
/// order. The pitches of an event that asks for any chord are those of one
/// of its candidates, drawn at random.
pub fn parameters_to_composition(params: &CompositionParameters) -> (compiled: Result<
    Composition,
    FailResult,
>)
    ensures
        match compiled {
            Ok(compiled) => {
                &&& compile_failure(params).is_none()
                &&& is_compilation(params, compiled@)
                &&& compiled@.valid()
            },
            Err(failure) => compile_failure(params) == Some(failure@),
        },
{
    let patterns = match &params.patterns {
        Some(patterns) => patterns,
        None => { return Err(FailResult::NoPatterns); },
    };
    if patterns.len() == 0 {
        return Err(FailResult::EmptyPatterns);
    }
    let name = params.get_name();
    let mut composition = Composition::new(name.as_str());
    let mut i: usize = 0;
    while i < patterns.len()
        invariant
            i <= patterns@.len(),
            params.patterns == Some(*patterns),
            composition@.name == params.name_or_default(),
            composition@.patterns.len() == i,
            forall|j: int|
                0 <= j < i ==> is_compiled_pattern(
                    params,
                    patterns@[j],
                    j,
                    #[trigger] composition@.patterns[j],
                ),
            composition@.valid(),
            patterns_failure(params.master, patterns@, 0) == patterns_failure(
                params.master,
                patterns@,
                i as int,
            ),
        decreases patterns@.len() - i,
    {
        let ghost before = composition@.patterns;
        match compile_pattern(params, &patterns[i], i) {
            Ok(pattern) => {
                composition.push_pattern(pattern);
                proof {
                    let after = composition@.patterns;
                    assert forall|j: int| 0 <= j < i + 1 implies is_compiled_pattern(
                        params,
                        patterns@[j],
                        j,
                        #[trigger] after[j],
                    ) by {
                        if j < i {
                            assert(after[j] == before[j]);
                        }
                    }
                    assert forall|j: int| 0 <= j < after.len() implies (#[trigger] after[j]).valid() by {
                        if j < i {
                            assert(after[j] == before[j]);
                        }
                    }
                }
            },
            Err(failure) => { return Err(failure); },
        }
        i += 1;
    }
    Ok(composition)
}

} // verus!
