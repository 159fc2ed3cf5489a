//! The score encoder: from a pattern to the messages of its score, with
//! times counted in ticks and notes held until the next event begins.

use crate::music_time::MusicTime;
use crate::theory::composition::{
    is_reachable, lemma_strictly_increasing_pairs, Composition, EventView, Pattern, PatternView,
};
use vstd::prelude::*;
use vstd::string::*;
use vstd::utf8::encode_utf8;

verus! {

/// Ticks in one beat interval.
pub const TICKS_PER_BEAT_INTERVAL: u32 = 60;

/// Ticks in one beat of eight beat intervals.
pub const TICKS_PER_BEAT: u32 = 480;

/// Velocity with which a note begins.
pub const NOTE_ON_VELOCITY: u8 = 64;

/// Velocity that ends a note.
pub const NOTE_OFF_VELOCITY: u8 = 0;

/// The kinds of meta event a score holds.
#[derive(Clone, Copy, Debug, PartialEq, Eq, Structural)]
pub enum MetaEvent {
    SequenceOrTrackName,
    EndOfTrack,
    SetTempo,
    TimeSignature,
}

/// The kinds of note event a score holds.
#[derive(Clone, Copy, Debug, PartialEq, Eq, Structural)]
pub enum MidiEvent {
    NoteOn { ch: u8, note: u8, velocity: u8 },
}

/// One message of a score. Its delta time is the number of ticks since the
/// message before it.
#[derive(Clone, Debug, PartialEq, Eq)]
#[allow(inconsistent_fields)]
pub enum Message {
    MetaEvent { delta_time: u32, event: MetaEvent, data: Vec<u8> },
    MidiEvent { delta_time: u32, event: MidiEvent },
    TrackChange,
}

/// A message as plain values.
#[allow(inconsistent_fields)]
pub enum MessageView {
    MetaEvent { delta_time: int, event: MetaEvent, data: Seq<u8> },
    MidiEvent { delta_time: int, event: MidiEvent },
    TrackChange,
}

impl View for Message {
    type V = MessageView;

    open spec fn view(&self) -> MessageView {
        match self {
            Message::MetaEvent { delta_time, event, data } => MessageView::MetaEvent {
                delta_time: *delta_time as int,
                event: *event,
                data: data@,
            },
            Message::MidiEvent { delta_time, event } => MessageView::MidiEvent {
                delta_time: *delta_time as int,
                event: *event,
            },
            Message::TrackChange => MessageView::TrackChange,
        }
    }
}

/// The messages of a vector, as plain values.
pub open spec fn messages_view(messages: Seq<Message>) -> Seq<MessageView> {
    Seq::new(messages.len(), |i: int| messages[i]@)
}

/// The tick at which a time lies in a pattern with `numerator` beats to the
/// bar.
pub open spec fn tick(numerator: int, bar: int, beat: int, beat_interval: int) -> int {
    (bar - 1) * numerator * 480 + (beat - 1) * 480 + (beat_interval - 1) * 60
}

/// The tick at which `time` lies.
pub open spec fn tick_of(numerator: u8, time: MusicTime) -> int {
    tick(numerator as int, time.bar as int, time.beat as int, time.beat_interval as int)
}

/// The tempo of a score in microseconds per beat: sixty million over the
/// beats per minute, rounded to the nearest whole number. At no beats per
/// minute the tempo is the largest value there is.
pub open spec fn tempo_of(bpm: u8) -> int {
    if bpm == 0 {
        u32::MAX as int
    } else {
        (2 * 60_000_000 + bpm) / (2 * bpm)
    }
}

/// The three low bytes of a tempo, highest first.
pub open spec fn tempo_data(tempo: int) -> Seq<u8> {
    seq![((tempo / 65536) % 256) as u8, ((tempo / 256) % 256) as u8, (tempo % 256) as u8]
}

/// The power of two that a denominator is; 0 for any other number.
pub open spec fn denominator_power(denominator: u8) -> u8 {
    if denominator == 2 {
        1
    } else if denominator == 4 {
        2
    } else if denominator == 8 {
        3
    } else if denominator == 16 {
        4
    } else if denominator == 32 {
        5
    } else if denominator == 64 {
        6
    } else {
        0
    }
}

/// The data of a time signature message.
pub open spec fn signature_data(numerator: u8, denominator: u8) -> Seq<u8> {
    seq![numerator, denominator_power(denominator), 8, 24]
}

/// The first track of a score: tempo, time signature, end of track, and
/// the change to the next track.
pub open spec fn meta_messages(pattern: PatternView) -> Seq<MessageView> {
    seq![
        MessageView::MetaEvent {
            delta_time: 0,
            event: MetaEvent::SetTempo,
            data: tempo_data(tempo_of(pattern.bpm)),
        },
        MessageView::MetaEvent {
            delta_time: 0,
            event: MetaEvent::TimeSignature,
            data: signature_data(pattern.signature.numerator, pattern.signature.denominator),
        },
        MessageView::MetaEvent { delta_time: 0, event: MetaEvent::EndOfTrack, data: Seq::empty() },
        MessageView::TrackChange,
    ]
}

/// The time at which the notes of the event at `index` end: when the next
/// event begins or, for the last event, at the start of the bar after its
/// own.
pub open spec fn legato_end(events: Seq<EventView>, index: int) -> MusicTime {
    if index + 1 < events.len() {
        events[index + 1].0
    } else {
        MusicTime { bar: (events[index].0.bar + 1) as u16, beat: 1, beat_interval: 1 }
    }
}

/// The tick at which the score stands when it comes to the event at
/// `index`: where the notes of the last sounding event before it ended, 0
/// where there is none.
pub open spec fn tick_before(numerator: u8, events: Seq<EventView>, index: int) -> int
    decreases index,
{
    if index <= 0 {
        0
    } else if events[index - 1].1.len() > 0 {
        tick_of(numerator, legato_end(events, index - 1))
    } else {
        tick_before(numerator, events, index - 1)
    }
}

/// One message for each pitch of a chord: the first after `delta` ticks,
/// the others together with it.
pub open spec fn chord_messages(pitches: Seq<u8>, delta: int, velocity: u8) -> Seq<MessageView> {
    Seq::new(
        pitches.len(),
        |k: int|
            MessageView::MidiEvent {
                delta_time: if k == 0 {
                    delta
                } else {
                    0
                },
                event: MidiEvent::NoteOn { ch: 0, note: pitches[k], velocity },
            },
    )
}

/// The messages of the event at `index`: its notes begin at its time and
/// end at its legato end. An event without pitches has no messages.
pub open spec fn event_messages(numerator: u8, events: Seq<EventView>, index: int) -> Seq<
    MessageView,
> {
    let (time, pitches) = events[index];
    if pitches.len() == 0 {
        Seq::empty()
    } else {
        chord_messages(
            pitches,
            tick_of(numerator, time) - tick_before(numerator, events, index),
            NOTE_ON_VELOCITY,
        ) + chord_messages(
            pitches,
            tick_of(numerator, legato_end(events, index)) - tick_of(numerator, time),
            NOTE_OFF_VELOCITY,
        )
    }
}

/// The messages of the first `count` events.
pub open spec fn events_messages(numerator: u8, events: Seq<EventView>, count: int) -> Seq<
    MessageView,
>
    decreases count,
{
    if count <= 0 {
        Seq::empty()
    } else {
        events_messages(numerator, events, count - 1) + event_messages(
            numerator,
            events,
            count - 1,
        )
    }
}

/// The second track of a score: the name of the pattern, the messages of
/// its events and the end of the track.
pub open spec fn note_messages(pattern: PatternView) -> Seq<MessageView> {
    seq![
        MessageView::MetaEvent {
            delta_time: 0,
            event: MetaEvent::SequenceOrTrackName,
            data: encode_utf8(pattern.name),
        },
    ] + events_messages(pattern.signature.numerator, pattern.events, pattern.events.len() as int)
        + seq![
        MessageView::MetaEvent { delta_time: 0, event: MetaEvent::EndOfTrack, data: Seq::empty() },
    ]
}

/// Whether the ticks of a pattern can be counted: the bar after its last
/// event exists and lies at a tick that fits in 32 bits.
pub open spec fn is_encodable(pattern: PatternView) -> bool {
    pattern.events.len() > 0 ==> {
        &&& pattern.events.last().0.bar < u16::MAX
        &&& pattern.events.last().0.bar * pattern.signature.numerator * 480 <= u32::MAX
    }
}

/// A bar holds as many ticks as it has beats, 480 to the beat.
pub proof fn lemma_tick_bar_length(numerator: int, bar: int)
    ensures
        tick(numerator, bar, 1, 1) - tick(numerator, bar - 1, 1, 1) == numerator * 480,
{
    assert((bar - 1) * numerator * 480 - (bar - 2) * numerator * 480 == numerator * 480)
        by (nonlinear_arith);
}

/// Among times that a clock reaches, a later time lies at a later tick.
pub proof fn lemma_tick_increases(numerator: u8, a: MusicTime, b: MusicTime)
    requires
        a.is_before(&b),
        1 <= a.beat <= numerator,
        1 <= a.beat_interval <= 8,
        1 <= b.beat,
        1 <= b.beat_interval,
    ensures
        tick_of(numerator, a) < tick_of(numerator, b),
{
    if a.bar < b.bar {
        let n = numerator as int;
        assert((b.bar - 1) * n * 480 >= a.bar * n * 480) by (nonlinear_arith)
            requires
                b.bar - 1 >= a.bar,
                n >= 0,
        ;
        assert((a.bar - 1) * n * 480 + n * 480 == a.bar * n * 480) by (nonlinear_arith);
    }
}

/// A time that a clock reaches lies at a tick before the start of the
/// bar after it, and not before 0 where its bar is 1 or later.
pub proof fn lemma_tick_within_bar(numerator: u8, a: MusicTime)
    requires
        1 <= a.beat <= numerator,
        1 <= a.beat_interval <= 8,
    ensures
        tick_of(numerator, a) < tick(numerator as int, a.bar + 1, 1, 1),
        a.bar >= 1 ==> 0 <= tick_of(numerator, a),
{
    let n = numerator as int;
    assert((a.bar - 1) * n * 480 + n * 480 == a.bar * n * 480) by (nonlinear_arith);
    if a.bar >= 1 {
        assert((a.bar - 1) * n * 480 >= 0) by (nonlinear_arith)
            requires
                a.bar - 1 >= 0,
                n >= 0,
        ;
    }
}

/// In a valid pattern whose ticks can be counted the score never stands behind the tick of the event
/// it comes to, and every event lies at a tick from 0 up to that of the
/// last event.
pub proof fn lemma_tick_before(pattern: PatternView, index: int)
    requires
        pattern.valid(),
        is_encodable(pattern),
        0 <= index < pattern.events.len(),
    ensures
        0 <= tick_before(pattern.signature.numerator, pattern.events, index) <= tick_of(
            pattern.signature.numerator,
            pattern.events[index].0,
        ),
        tick_of(pattern.signature.numerator, pattern.events[index].0) < tick_of(
            pattern.signature.numerator,
            legato_end(pattern.events, index),
        ),
        tick_of(pattern.signature.numerator, legato_end(pattern.events, index))
            <= pattern.events.last().0.bar * pattern.signature.numerator * 480,
    decreases index,
{
    let n = pattern.signature.numerator;
    let events = pattern.events;
    let time = events[index].0;
    let last = events.last().0;
    assert(is_reachable(time, pattern.signature));
    assert(is_reachable(last, pattern.signature));
    lemma_tick_within_bar(n, time);
    lemma_tick_within_bar(n, last);
    assert(tick(n as int, last.bar + 1, 1, 1) == last.bar * n * 480);
    if index + 1 < events.len() {
        assert(events[index].0.is_before(&events[index + 1].0));
        assert(is_reachable(events[index + 1].0, pattern.signature));
        lemma_tick_increases(n, time, events[index + 1].0);
        lemma_tick_within_bar(n, events[index + 1].0);
        if index + 1 < events.len() - 1 {
            lemma_strictly_increasing_pairs(events, index + 1, events.len() - 1);
            lemma_tick_increases(n, events[index + 1].0, last);
        }
    } else {
        assert(tick_of(n, legato_end(events, index)) == tick(n as int, time.bar + 1, 1, 1));
    }
    if index > 0 {
        lemma_tick_before(pattern, index - 1);
        assert(events[index - 1].0.is_before(&events[(index - 1) + 1].0));
        assert(is_reachable(events[index - 1].0, pattern.signature));
        lemma_tick_increases(n, events[index - 1].0, time);
    }
}

pub fn time_signature_to_data(time_signature: (u8, u8)) -> (data: Vec<u8>)
    ensures
        data@ == signature_data(time_signature.0, time_signature.1),
{
    let (numerator, denominator) = time_signature;
    let dd: u8 = if denominator == 2 {
        1
    } else if denominator == 4 {
        2
    } else if denominator == 8 {
        3
    } else if denominator == 16 {
        4
    } else if denominator == 32 {
        5
    } else if denominator == 64 {
        6
    } else {
        0
    };
    let data = vec![numerator, dd, 8, 24];
    assert(data@ =~= signature_data(time_signature.0, time_signature.1));
    data
}

pub fn to_tick_time(time_numerator: u8, bar: u16, beat: u8, beat_interval: u8) -> (ticks: u32)
    requires
        bar >= 1,
        beat >= 1,
        beat_interval >= 1,
        tick(time_numerator as int, bar as int, beat as int, beat_interval as int) <= u32::MAX,
    ensures
        ticks == tick(time_numerator as int, bar as int, beat as int, beat_interval as int),
{
    let bar_corrected: u64 = (bar - 1) as u64;
    let beat_corrected: u64 = (beat - 1) as u64;
    let beat_interval_corrected: u64 = (beat_interval - 1) as u64;
    assert(bar_corrected * (time_numerator as u64) <= 65535 * 255) by (nonlinear_arith)
        requires
            bar_corrected <= 65535,
            time_numerator <= 255,
    ;
    assert((bar - 1) * time_numerator * 480 == (bar_corrected * (time_numerator as u64)) * 480)
        by (nonlinear_arith)
        requires
            bar_corrected == bar - 1,
    ;
    let ticks: u64 = bar_corrected * (time_numerator as u64) * 480 + beat_corrected * 480
        + beat_interval_corrected * 60;
    ticks as u32
}

pub fn to_tempo_samples(bpm: u8) -> (tempo: u32)
    ensures
        tempo == tempo_of(bpm),
{
    if bpm == 0 {
        u32::MAX
    } else {
        (2 * 60_000_000 + bpm as u32) / (2 * bpm as u32)
    }
}

pub fn pattern_to_midi_meta(pattern: &Pattern) -> (messages: Vec<Message>)
    ensures
        messages_view(messages@) == meta_messages(pattern@),
{
    let mut messages: Vec<Message> = Vec::new();
    let tempo = to_tempo_samples(pattern.get_bpm());
    let tempo_bytes = vec![
        ((tempo / 65536) % 256) as u8,
        ((tempo / 256) % 256) as u8,
        (tempo % 256) as u8,
    ];
    assert(tempo_bytes@ =~= tempo_data(tempo as int));
    messages.push(Message::MetaEvent { delta_time: 0, event: MetaEvent::SetTempo, data: tempo_bytes });
    let time_signature = time_signature_to_data(pattern.get_time_signature().as_tuple());
    messages.push(
        Message::MetaEvent { delta_time: 0, event: MetaEvent::TimeSignature, data: time_signature },
    );
    messages.push(
        Message::MetaEvent { delta_time: 0, event: MetaEvent::EndOfTrack, data: Vec::new() },
    );
    messages.push(Message::TrackChange);
    assert(messages_view(messages@) =~= meta_messages(pattern@));
    messages
}

/// Appends one message for each pitch of a chord.
fn push_chord(messages: &mut Vec<Message>, pitches: &Vec<u8>, delta: u32, velocity: u8)
    ensures
        messages_view(final(messages)@) == messages_view(old(messages)@) + chord_messages(
            pitches@,
            delta as int,
            velocity,
        ),
{
    let ghost before = messages_view(messages@);
    let ghost chord = chord_messages(pitches@, delta as int, velocity);
    let mut k: usize = 0;
    assert(messages_view(messages@) =~= before + chord.subrange(0, 0));
    while k < pitches.len()
        invariant
            k <= pitches@.len(),
            chord == chord_messages(pitches@, delta as int, velocity),
            messages_view(messages@) == before + chord.subrange(0, k as int),
        decreases pitches@.len() - k,
    {
        let delta_time = if k == 0 {
            delta
        } else {
            0
        };
        let ghost held = messages_view(messages@);
        messages.push(
            Message::MidiEvent {
                delta_time,
                event: MidiEvent::NoteOn { ch: 0, note: pitches[k], velocity },
            },
        );
        assert(messages_view(messages@) =~= held.push(chord[k as int]));
        assert(messages_view(messages@) =~= before + chord.subrange(0, k + 1));
        k += 1;
    }
    assert(chord.subrange(0, k as int) =~= chord);
}

pub fn pattern_to_midi_messages(pattern: &Pattern) -> (messages: Vec<Message>)
    requires
        pattern@.valid(),
        is_encodable(pattern@),
    ensures
        messages_view(messages@) == note_messages(pattern@),
{
    let ghost view = pattern@;
    let ghost events = pattern@.events;
    let numerator = pattern.get_time_signature().get_numerator();
    let mut messages: Vec<Message> = Vec::new();
    let mut total_time: u32 = 0;
    let name_message = Message::MetaEvent {
        delta_time: 0,
        event: MetaEvent::SequenceOrTrackName,
        data: pattern.get_name().as_bytes_vec(),
    };
    let ghost head = seq![name_message@];
    messages.push(name_message);
    let count = pattern.len();
    let mut i: usize = 0;
    assert(messages_view(messages@) =~= head + events_messages(numerator, events, 0));
    while i < count
        invariant
            i <= count,
            count == events.len(),
            view == pattern@,
            events == view.events,
            view.valid(),
            is_encodable(view),
            numerator == view.signature.numerator,
            total_time == tick_before(numerator, events, i as int),
            messages_view(messages@) == head + events_messages(numerator, events, i as int),
        decreases count - i,
    {
        let event = pattern.get(i);
        let music_time = event.0;
        proof {
            lemma_tick_before(view, i as int);
            assert(is_reachable(events[i as int].0, view.signature));
        }
        if event.1.len() > 0 {
            let start = to_tick_time(
                numerator,
                music_time.get_bar(),
                music_time.get_beat(),
                music_time.get_beat_interval(),
            );
            let ghost held = messages_view(messages@);
            push_chord(&mut messages, &event.1, start - total_time, NOTE_ON_VELOCITY);
            let legato_end = if i == count - 1 {
                MusicTime::new(music_time.get_bar() + 1, 1, 1)
            } else {
                pattern.get(i + 1).0
            };
            proof {
                assert(legato_end == self::legato_end(events, i as int));
                if i + 1 < count {
                    assert(is_reachable(events[i + 1].0, view.signature));
                }
            }
            let end = to_tick_time(
                numerator,
                legato_end.get_bar(),
                legato_end.get_beat(),
                legato_end.get_beat_interval(),
            );
            push_chord(&mut messages, &event.1, end - start, NOTE_OFF_VELOCITY);
            total_time = end;
            proof {
                assert(messages_view(messages@) =~= held + event_messages(
                    numerator,
                    events,
                    i as int,
                ));
            }
        }
        assert(messages_view(messages@) =~= head + events_messages(numerator, events, i + 1));
        i += 1;
    }
    let ghost held = messages_view(messages@);
    messages.push(
        Message::MetaEvent { delta_time: 0, event: MetaEvent::EndOfTrack, data: Vec::new() },
    );
    assert(messages_view(messages@) =~= held.push(
        MessageView::MetaEvent { delta_time: 0, event: MetaEvent::EndOfTrack, data: Seq::empty() },
    ));
    assert(messages_view(messages@) =~= note_messages(pattern@));
    messages
}

/// Whether the ticks of a pattern can be counted.
pub fn can_encode(pattern: &Pattern) -> (encodable: bool)
    ensures
        encodable == is_encodable(pattern@),
{
    let count = pattern.len();
    if count == 0 {
        return true;
    }
    let bar = pattern.get(count - 1).0.get_bar();
    let numerator = pattern.get_time_signature().get_numerator();
    assert(pattern@.events.last() == pattern@.events[count - 1]);
    assert((bar as u64) * (numerator as u64) <= 65535 * 255) by (nonlinear_arith)
        requires
            bar <= 65535,
            numerator <= 255,
    ;
    assert(bar * numerator * 480 == ((bar as u64) * (numerator as u64)) * 480) by (nonlinear_arith);
    bar < u16::MAX && (bar as u64) * (numerator as u64) * 480 <= u32::MAX as u64
}

/// The score of a pattern: its first track, then its second.
pub open spec fn pattern_score(pattern: PatternView) -> Seq<MessageView> {
    meta_messages(pattern) + note_messages(pattern)
}

/// The score of each pattern of a composition, under the pattern's name.
pub fn export_composition(composition: &Composition) -> (scores: Vec<(String, Vec<Message>)>)
    requires
        composition@.valid(),
        forall|i: int| 0 <= i < composition@.patterns.len() ==> is_encodable(#[trigger] composition@.patterns[i]),
    ensures
        scores@.len() == composition@.patterns.len(),
        forall|i: int|
            0 <= i < scores@.len() ==> {
                &&& (#[trigger] scores@[i]).0@ == composition@.patterns[i].name
                &&& messages_view(scores@[i].1@) == pattern_score(composition@.patterns[i])
            },
{
    let mut pattern_midi: Vec<(String, Vec<Message>)> = Vec::new();
    let mut i: usize = 0;
    while i < composition.len()
        invariant
            i <= composition@.patterns.len(),
            composition@.valid(),
            forall|k: int| 0 <= k < composition@.patterns.len() ==> is_encodable(#[trigger] composition@.patterns[k]),
            pattern_midi@.len() == i,
            forall|k: int|
                0 <= k < i ==> {
                    &&& (#[trigger] pattern_midi@[k]).0@ == composition@.patterns[k].name
                    &&& messages_view(pattern_midi@[k].1@) == pattern_score(
                        composition@.patterns[k],
                    )
                },
        decreases composition@.patterns.len() - i,
    {
        let pattern = composition.get(i);
        assert(composition@.patterns[i as int].valid());
        let pattern_name = pattern.get_name().to_owned();
        let mut messages = pattern_to_midi_meta(pattern);
        let mut notes = pattern_to_midi_messages(pattern);
        messages.append(&mut notes);
        assert(messages_view(messages@) =~= pattern_score(pattern@));
        pattern_midi.push((pattern_name, messages));
        i += 1;
    }
    pattern_midi
}

} // verus!
