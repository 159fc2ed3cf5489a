//! The timeline model: patterns of time-stamped pitch events, grouped into a
//! composition.

use crate::music_time::{MusicTime, BEAT_INTERVALS_PER_BEAT};
use crate::theory::notes::{MAX_PITCH, MIN_PITCH};
use crate::time_signature::TimeSignature;
use vstd::prelude::*;

verus! {

/// The pitches that sound at a point in time.
pub type PatternEvent = (MusicTime, Vec<u8>);

/// A pattern event as plain values.
pub type EventView = (MusicTime, Seq<u8>);

/// The events of a vector, as plain values.
pub open spec fn events_view(events: Seq<PatternEvent>) -> Seq<EventView> {
    Seq::new(events.len(), |i: int| (events[i].0, events[i].1@))
}

/// Whether the clock of a pattern with the given signature can reach `time`:
/// bars count from 1, beats from 1 to the numerator and beat intervals from
/// 1 to 8.
pub open spec fn is_reachable(time: MusicTime, signature: TimeSignature) -> bool {
    &&& time.bar >= 1
    &&& 1 <= time.beat <= signature.numerator
    &&& 1 <= time.beat_interval <= BEAT_INTERVALS_PER_BEAT
}

/// Each event comes strictly later than the one before it.
pub open spec fn strictly_increasing(events: Seq<EventView>) -> bool {
    forall|i: int| 0 <= i && i + 1 < events.len() ==> (#[trigger] events[i]).0.is_before(&events[i + 1].0)
}

/// No event comes earlier than the one before it.
pub open spec fn non_decreasing(events: Seq<EventView>) -> bool {
    forall|i: int| 0 <= i && i + 1 < events.len() ==> !events[i + 1].0.is_before(&(#[trigger] events[i]).0)
}

/// Every pitch of every event lies within the range of pitches.
pub open spec fn pitches_in_range(events: Seq<EventView>) -> bool {
    forall|i: int, j: int|
        0 <= i < events.len() && 0 <= j < events[i].1.len() ==> MIN_PITCH <= (#[trigger] events[i].1[j]) <= MAX_PITCH
}

/// Every event lies at a time that a clock with the given signature reaches.
pub open spec fn all_reachable(events: Seq<EventView>, signature: TimeSignature) -> bool {
    forall|i: int| 0 <= i < events.len() ==> is_reachable((#[trigger] events[i]).0, signature)
}

/// The number of events at the head of `events` that come before `time`.
pub open spec fn leading_before(events: Seq<EventView>, time: MusicTime) -> int
    decreases events.len(),
{
    if events.len() > 0 && events[0].0.is_before(&time) {
        1 + leading_before(events.subrange(1, events.len() as int), time)
    } else {
        0
    }
}

/// The place of a new event among events in time order: behind every event
/// that is not later than it.
pub open spec fn insertion_point(sorted: Seq<EventView>, time: MusicTime) -> int
    decreases sorted.len(),
{
    if sorted.len() > 0 && time.is_before(&sorted.last().0) {
        insertion_point(sorted.drop_last(), time)
    } else {
        sorted.len() as int
    }
}

/// The events in time order, events of the same time in their given order.
pub open spec fn sort_by_time(events: Seq<EventView>) -> Seq<EventView>
    decreases events.len(),
{
    if events.len() == 0 {
        events
    } else {
        let sorted = sort_by_time(events.drop_last());
        sorted.insert(insertion_point(sorted, events.last().0), events.last())
    }
}

/// A pattern as plain values.
pub struct PatternView {
    pub name: Seq<char>,
    pub bpm: u8,
    pub signature: TimeSignature,
    pub events: Seq<EventView>,
}

impl PatternView {
    /// A pattern is valid when its signature is valid, its events come in
    /// strictly increasing time order at times its clock reaches, and their
    /// pitches lie within the range of pitches.
    pub open spec fn valid(&self) -> bool {
        &&& self.signature.valid()
        &&& strictly_increasing(self.events)
        &&& all_reachable(self.events, self.signature)
        &&& pitches_in_range(self.events)
    }
}

/// A composition as plain values.
pub struct CompositionView {
    pub name: Seq<char>,
    pub patterns: Seq<PatternView>,
}

impl CompositionView {
    /// A composition is valid when each of its patterns is.
    pub open spec fn valid(&self) -> bool {
        forall|i: int| 0 <= i < self.patterns.len() ==> (#[trigger] self.patterns[i]).valid()
    }
}

/// In a valid composition every event of every pattern comes strictly
/// later than the event before it.
pub proof fn lemma_valid_composition_is_ordered(
    composition: CompositionView,
    pattern: int,
    event: int,
)
    requires
        composition.valid(),
        0 <= pattern < composition.patterns.len(),
        0 <= event,
        event + 1 < composition.patterns[pattern].events.len(),
    ensures
        composition.patterns[pattern].events[event].0.is_before(
            &composition.patterns[pattern].events[event + 1].0,
        ),
{
    assert(composition.patterns[pattern].valid());
}

/// The place found for `time` lies within the events, behind every event
/// that is not later and before every event that is.
pub proof fn lemma_insertion_point(sorted: Seq<EventView>, time: MusicTime)
    requires
        non_decreasing(sorted),
    ensures
        0 <= insertion_point(sorted, time) <= sorted.len(),
        forall|i: int| 0 <= i < insertion_point(sorted, time) ==> !time.is_before(&(#[trigger] sorted[i]).0),
        forall|i: int|
            insertion_point(sorted, time) <= i < sorted.len() ==> time.is_before(&(#[trigger] sorted[i]).0),
    decreases sorted.len(),
{
    if sorted.len() > 0 && time.is_before(&sorted.last().0) {
        let front = sorted.drop_last();
        assert forall|i: int| 0 <= i && i + 1 < front.len() implies !front[i + 1].0.is_before(
            &(#[trigger] front[i]).0,
        ) by {
            assert(front[i] == sorted[i]);
            assert(front[i + 1] == sorted[i + 1]);
        }
        lemma_insertion_point(front, time);
        assert forall|i: int| 0 <= i < insertion_point(sorted, time) implies !time.is_before(
            &(#[trigger] sorted[i]).0,
        ) by {
            assert(sorted[i] == front[i]);
        }
        assert forall|i: int| insertion_point(sorted, time) <= i < sorted.len() implies time.is_before(
            &(#[trigger] sorted[i]).0,
        ) by {
            if i < front.len() {
                assert(sorted[i] == front[i]);
            }
        }
    } else if sorted.len() > 0 {
        let p = sorted.len() as int;
        assert forall|i: int| 0 <= i < p implies !time.is_before(&(#[trigger] sorted[i]).0) by {
            lemma_non_decreasing_pairs(sorted, i, p - 1);
            if time.is_before(&sorted[i].0) {
                assert(!sorted[p - 1].0.is_before(&sorted[i].0));
            }
        }
    }
}

/// In events that never step back in time, no event comes before an
/// earlier one, however far apart the two stand.
pub proof fn lemma_non_decreasing_pairs(events: Seq<EventView>, i: int, j: int)
    requires
        non_decreasing(events),
        0 <= i <= j < events.len(),
    ensures
        !events[j].0.is_before(&events[i].0),
    decreases j - i,
{
    if i < j {
        lemma_non_decreasing_pairs(events, i, j - 1);
        assert(!events[(j - 1) + 1].0.is_before(&events[j - 1].0));
    }
}

/// In strictly increasing events, each event comes before every later one.
pub proof fn lemma_strictly_increasing_pairs(events: Seq<EventView>, i: int, j: int)
    requires
        strictly_increasing(events),
        0 <= i < j < events.len(),
    ensures
        events[i].0.is_before(&events[j].0),
    decreases j - i,
{
    if i + 1 < j {
        lemma_strictly_increasing_pairs(events, i, j - 1);
        assert(events[j - 1].0.is_before(&events[(j - 1) + 1].0));
    } else {
        assert(events[i].0.is_before(&events[i + 1].0));
    }
}

/// Sorting by time gives the same events, none stepping back in time.
pub proof fn lemma_sort_by_time(events: Seq<EventView>)
    ensures
        non_decreasing(sort_by_time(events)),
        sort_by_time(events).to_multiset() == events.to_multiset(),
        sort_by_time(events).len() == events.len(),
    decreases events.len(),
{
    broadcast use vstd::seq_lib::group_to_multiset_ensures;

    if events.len() == 0 {
    } else {
        let front = events.drop_last();
        let last = events.last();
        let sorted = sort_by_time(front);
        lemma_sort_by_time(front);
        lemma_insertion_point(sorted, last.0);
        let p = insertion_point(sorted, last.0);
        let out = sorted.insert(p, last);
        assert forall|i: int| 0 <= i && i + 1 < out.len() implies !out[i + 1].0.is_before(
            &(#[trigger] out[i]).0,
        ) by {
            if i + 1 < p {
                assert(out[i] == sorted[i] && out[i + 1] == sorted[i + 1]);
            } else if i + 1 == p {
                assert(out[i] == sorted[i]);
            } else if i == p {
                assert(out[i + 1] == sorted[i]);
            } else {
                assert(out[i] == sorted[i - 1] && out[i + 1] == sorted[(i - 1) + 1]);
            }
        }
        assert(events =~= front.push(last));
        assert(out.to_multiset() =~= events.to_multiset());
    }
}

/// Events already in strictly increasing order are left as they are.
pub proof fn lemma_sort_by_time_keeps_sorted(events: Seq<EventView>)
    requires
        strictly_increasing(events),
    ensures
        sort_by_time(events) == events,
    decreases events.len(),
{
    if events.len() > 0 {
        let front = events.drop_last();
        assert forall|i: int| 0 <= i && i + 1 < front.len() implies (#[trigger] front[i]).0.is_before(
            &front[i + 1].0,
        ) by {
            assert(front[i] == events[i]);
            assert(front[i + 1] == events[i + 1]);
        }
        lemma_sort_by_time_keeps_sorted(front);
        if front.len() > 0 {
            assert(events[front.len() - 1].0.is_before(&events[(front.len() - 1) + 1].0));
            assert(front.last() == events[front.len() - 1]);
        }
        assert(insertion_point(front, events.last().0) == front.len());
        assert(front.insert(front.len() as int, events.last()) =~= events);
    }
}

/// A named sequence of pitch events with a tempo and a time signature.
#[derive(Debug)]
pub struct Pattern {
    name: String,
    bpm: u8,
    signature: TimeSignature,
    events: Vec<PatternEvent>,
}

impl View for Pattern {
    type V = PatternView;

    closed spec fn view(&self) -> PatternView {
        PatternView {
            name: self.name@,
            bpm: self.bpm,
            signature: self.signature,
            events: events_view(self.events@),
        }
    }
}

impl Pattern {
    /// A pattern without events.
    pub fn new(name: &str, bpm: u8, signature: TimeSignature) -> (pattern: Pattern)
        ensures
            pattern@ == (PatternView {
                name: name@,
                bpm,
                signature,
                events: Seq::<EventView>::empty(),
            }),
    {
        let pattern = Pattern { name: name.to_owned(), bpm, signature, events: Vec::new() };
        assert(pattern@.events =~= Seq::<EventView>::empty());
        pattern
    }

    /// A pattern of the given events, brought into time order.
    pub fn new_with_events(
        name: &str,
        bpm: u8,
        signature: TimeSignature,
        events: Vec<PatternEvent>,
    ) -> (pattern: Pattern)
        ensures
            pattern@ == (PatternView {
                name: name@,
                bpm,
                signature,
                events: sort_by_time(events_view(events@)),
            }),
            non_decreasing(pattern@.events),
            pattern@.events.to_multiset() == events_view(events@).to_multiset(),
    {
        let mut pattern = Pattern { name: name.to_owned(), bpm, signature, events };
        pattern.sort_events();
        pattern
    }

    /// Appends an event.
    pub fn push_event(&mut self, time: MusicTime, notes: Vec<u8>) -> (pattern: &Self)
        ensures
            final(self)@ == (PatternView {
                events: old(self)@.events.push((time, notes@)),
                ..old(self)@
            }),
            *pattern == *final(self),
    {
        self.events.push((time, notes));
        assert(self@.events =~= old(self)@.events.push((time, notes@)));
        self
    }

    pub fn len(&self) -> (len: usize)
        ensures
            len == self@.events.len(),
    {
        self.events.len()
    }

    pub fn get_bpm(&self) -> (bpm: u8)
        ensures
            bpm == self@.bpm,
    {
        self.bpm
    }

    pub fn get_time_signature(&self) -> (signature: TimeSignature)
        ensures
            signature == self@.signature,
    {
        self.signature
    }

    pub fn get(&self, index: usize) -> (event: &PatternEvent)
        requires
            index < self@.events.len(),
        ensures
            (event.0, event.1@) == self@.events[index as int],
    {
        &self.events[index]
    }

    pub fn get_events(&self) -> (events: &Vec<PatternEvent>)
        ensures
            events_view(events@) == self@.events,
    {
        &self.events
    }

    pub fn get_name(&self) -> (name: &str)
        ensures
            name@ == self@.name,
    {
        self.name.as_str()
    }

    /// The index of the first event that does not come before `time`; the
    /// number of events where all of them come before it.
    pub fn find_next_event_index(&self, time: &MusicTime) -> (event_head: usize)
        ensures
            event_head == leading_before(self@.events, *time),
            event_head <= self@.events.len(),
            forall|i: int| 0 <= i < event_head ==> (#[trigger] self@.events[i]).0.is_before(time),
            event_head < self@.events.len() ==> !self@.events[event_head as int].0.is_before(time),
    {
        let ghost events = self@.events;
        let mut event_head: usize = 0;
        assert(events.subrange(0, events.len() as int) =~= events);
        while event_head < self.events.len() && self.events[event_head].0.precedes(time)
            invariant
                event_head <= self.events@.len(),
                events == self@.events,
                forall|i: int| 0 <= i < event_head ==> (#[trigger] events[i]).0.is_before(time),
                leading_before(events, *time) == event_head + leading_before(
                    events.subrange(event_head as int, events.len() as int),
                    *time,
                ),
            decreases self.events@.len() - event_head,
        {
            proof {
                let rest = events.subrange(event_head as int, events.len() as int);
                assert(rest[0] == events[event_head as int]);
                assert(rest.subrange(1, rest.len() as int) =~= events.subrange(
                    event_head + 1,
                    events.len() as int,
                ));
            }
            event_head += 1;
        }
        proof {
            let rest = events.subrange(event_head as int, events.len() as int);
            if event_head < events.len() {
                assert(rest[0] == events[event_head as int]);
            }
        }
        event_head
    }

    /// Whether the pattern is valid.
    pub fn is_valid(&self) -> (valid: bool)
        ensures
            valid == self@.valid(),
    {
        if !self.signature.is_valid() {
            return false;
        }
        let ghost events = self@.events;
        let mut i: usize = 0;
        while i < self.events.len()
            invariant
                i <= self.events@.len(),
                events == self@.events,
                events.len() == self.events@.len(),
                strictly_increasing(events.subrange(0, i as int)),
                all_reachable(events.subrange(0, i as int), self.signature),
                pitches_in_range(events.subrange(0, i as int)),
            decreases self.events@.len() - i,
        {
            let time = self.events[i].0;
            let reachable = time.bar >= 1 && 1 <= time.beat && time.beat <= self.signature.numerator
                && 1 <= time.beat_interval && time.beat_interval <= BEAT_INTERVALS_PER_BEAT;
            if !reachable {
                assert(!is_reachable(events[i as int].0, self.signature));
                return false;
            }
            if i > 0 && !self.events[i - 1].0.precedes(&time) {
                assert(!(events[i - 1]).0.is_before(&events[(i - 1) + 1].0));
                return false;
            }
            let pitches = &self.events[i].1;
            let mut j: usize = 0;
            while j < pitches.len()
                invariant
                    j <= pitches@.len(),
                    i < events.len(),
                    events == self@.events,
                    pitches@ == events[i as int].1,
                    forall|k: int| 0 <= k < j ==> MIN_PITCH <= #[trigger] pitches@[k] <= MAX_PITCH,
                decreases pitches@.len() - j,
            {
                if pitches[j] < MIN_PITCH || pitches[j] > MAX_PITCH {
                    assert(events[i as int].1[j as int] == pitches@[j as int]);
                    assert(!(MIN_PITCH <= self@.events[i as int].1[j as int] <= MAX_PITCH));
                    return false;
                }
                j += 1;
            }
            proof {
                let head = events.subrange(0, i as int);
                let next = events.subrange(0, i + 1);
                assert forall|k: int| 0 <= k && k + 1 < next.len() implies (#[trigger] next[k]).0.is_before(
                    &next[k + 1].0,
                ) by {
                    if k + 1 < i {
                        assert(head[k].0.is_before(&head[k + 1].0));
                    }
                }
                assert forall|k: int| 0 <= k < next.len() implies is_reachable(
                    (#[trigger] next[k]).0,
                    self.signature,
                ) by {
                    if k < i {
                        assert(is_reachable(head[k].0, self.signature));
                    }
                }
                assert forall|k: int, l: int|
                    0 <= k < next.len() && 0 <= l < next[k].1.len() implies MIN_PITCH <= (#[trigger] next[k].1[l])
                    <= MAX_PITCH by {
                    if k < i {
                        assert(MIN_PITCH <= head[k].1[l] <= MAX_PITCH);
                    } else {
                        assert(next[k].1[l] == pitches@[l]);
                    }
                }
            }
            i += 1;
        }
        assert(events.subrange(0, i as int) =~= events);
        true
    }

    /// Brings the events into time order. Events of the same time keep
    /// their order.
    pub fn sort_events(&mut self)
        ensures
            final(self)@ == (PatternView {
                events: sort_by_time(old(self)@.events),
                ..old(self)@
            }),
            non_decreasing(final(self)@.events),
            final(self)@.events.to_multiset() == old(self)@.events.to_multiset(),
    {
        let ghost before = self@.events;
        proof {
            lemma_sort_by_time(before);
        }
        let n = self.events.len();
        let mut i: usize = 0;
        assert(before.subrange(0, 0) =~= Seq::<EventView>::empty());
        while i < n
            invariant
                i <= n,
                n == before.len(),
                self.events@.len() == n,
                self.name == old(self).name,
                self.bpm == old(self).bpm,
                self.signature == old(self).signature,
                events_view(self.events@).subrange(0, i as int) == sort_by_time(
                    before.subrange(0, i as int),
                ),
                events_view(self.events@).subrange(i as int, n as int) == before.subrange(
                    i as int,
                    n as int,
                ),
            decreases n - i,
        {
            let ghost current = events_view(self.events@);
            let ghost sorted = current.subrange(0, i as int);
            let time = self.events[i].0;
            proof {
                assert(current[i as int] == before.subrange(i as int, n as int)[0]);
                assert(before.subrange(0, i + 1).drop_last() =~= before.subrange(0, i as int));
                lemma_sort_by_time(before.subrange(0, i as int));
            }
            let mut j: usize = i;
            assert(sorted.subrange(0, i as int) =~= sorted);
            while j > 0 && time.precedes(&self.events[j - 1].0)
                invariant
                    j <= i < n,
                    self.events@.len() == n,
                    current == events_view(self.events@),
                    sorted == current.subrange(0, i as int),
                    insertion_point(sorted, time) == insertion_point(
                        sorted.subrange(0, j as int),
                        time,
                    ),
                decreases j,
            {
                proof {
                    let head = sorted.subrange(0, j as int);
                    assert(head.last() == current[j - 1]);
                    assert(head.drop_last() =~= sorted.subrange(0, j - 1));
                }
                j -= 1;
            }
            proof {
                let head = sorted.subrange(0, j as int);
                if j > 0 {
                    assert(head.last() == current[j - 1]);
                }
                assert(insertion_point(sorted, time) == j);
            }
            let event = self.events.remove(i);
            self.events.insert(j, event);
            proof {
                let after = events_view(self.events@);
                assert(after.subrange(0, i + 1) =~= sorted.insert(j as int, current[i as int]));
                assert forall|k: int| i + 1 <= k < n implies after[k] == before[k] by {
                    assert(current.subrange(i as int, n as int)[k - i] == before.subrange(
                        i as int,
                        n as int,
                    )[k - i]);
                }
                assert(after.subrange(i + 1, n as int) =~= before.subrange(i + 1, n as int));
                assert(before.subrange(0, i + 1).last() == current[i as int]);
            }
            i += 1;
        }
        assert(before.subrange(0, n as int) =~= before);
        assert(events_view(self.events@).subrange(0, n as int) =~= events_view(self.events@));
    }
}

/// A named sequence of patterns.
#[derive(Debug)]
pub struct Composition {
    name: String,
    patterns: Vec<Pattern>,
}

impl View for Composition {
    type V = CompositionView;

    closed spec fn view(&self) -> CompositionView {
        CompositionView {
            name: self.name@,
            patterns: Seq::new(self.patterns@.len(), |i: int| self.patterns@[i]@),
        }
    }
}

impl Composition {
    /// A composition without patterns.
    pub fn new(name: &str) -> (composition: Composition)
        ensures
            composition@ == (CompositionView {
                name: name@,
                patterns: Seq::<PatternView>::empty(),
            }),
    {
        let composition = Composition { name: name.to_string(), patterns: Vec::new() };
        assert(composition@.patterns =~= Seq::<PatternView>::empty());
        composition
    }

    /// A composition of the given patterns.
    pub fn new_with_patterns(name: &str, patterns: Vec<Pattern>) -> (composition: Composition)
        ensures
            composition@.name == name@,
            composition@.patterns.len() == patterns@.len(),
            forall|i: int| 0 <= i < patterns@.len() ==> composition@.patterns[i] == (#[trigger] patterns@[i])@,
    {
        Composition { name: name.to_string(), patterns }
    }

    /// Appends a pattern without events.
    pub fn push_new_pattern(&mut self, name: String, bpm: u8, signature: TimeSignature)
        ensures
            final(self)@ == (CompositionView {
                patterns: old(self)@.patterns.push(
                    PatternView { name: name@, bpm, signature, events: Seq::<EventView>::empty() },
                ),
                ..old(self)@
            }),
    {
        let pattern = Pattern::new(name.as_str(), bpm, signature);
        self.patterns.push(pattern);
        assert(self@.patterns =~= old(self)@.patterns.push(pattern@));
    }

    /// Appends a pattern.
    pub fn push_pattern(&mut self, pattern: Pattern)
        ensures
            final(self)@ == (CompositionView {
                patterns: old(self)@.patterns.push(pattern@),
                ..old(self)@
            }),
    {
        self.patterns.push(pattern);
        assert(self@.patterns =~= old(self)@.patterns.push(pattern@));
    }

    pub fn len(&self) -> (len: usize)
        ensures
            len == self@.patterns.len(),
    {
        self.patterns.len()
    }

    pub fn get(&self, index: usize) -> (pattern: &Pattern)
        requires
            index < self@.patterns.len(),
        ensures
            pattern@ == self@.patterns[index as int],
    {
        &self.patterns[index]
    }

    pub fn get_mut(&mut self, index: usize) -> (pattern: &mut Pattern)
        requires
            index < old(self)@.patterns.len(),
        ensures
            pattern@ == old(self)@.patterns[index as int],
            final(self)@.name == old(self)@.name,
            final(self)@.patterns =~= old(self)@.patterns.update(index as int, final(pattern)@),
    {
        &mut self.patterns[index]
    }

    pub fn get_patterns(&self) -> (patterns: &Vec<Pattern>)
        ensures
            patterns@.len() == self@.patterns.len(),
            forall|i: int| 0 <= i < patterns@.len() ==> (#[trigger] patterns@[i])@ == self@.patterns[i],
    {
        &self.patterns
    }

    pub fn get_name(&self) -> (name: &str)
        ensures
            name@ == self@.name,
    {
        self.name.as_str()
    }

    /// Whether the composition is valid.
    pub fn is_valid(&self) -> (valid: bool)
        ensures
            valid == self@.valid(),
    {
        let mut i: usize = 0;
        while i < self.patterns.len()
            invariant
                i <= self.patterns@.len(),
                forall|k: int| 0 <= k < i ==> (#[trigger] self@.patterns[k]).valid(),
            decreases self.patterns@.len() - i,
        {
            if !self.patterns[i].is_valid() {
                assert(!self@.patterns[i as int].valid());
                return false;
            }
            i += 1;
        }
        true
    }
}

} // verus!
