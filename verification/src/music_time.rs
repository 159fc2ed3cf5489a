//! The three-level musical clock: bar, beat and beat interval.

use vstd::prelude::*;

verus! {

/// Number of beat intervals in one beat.
pub const BEAT_INTERVALS_PER_BEAT: u8 = 8;

/// A point in musical time. Times are ordered by bar, then beat, then beat
/// interval; two times are equal when all three parts are equal.
#[derive(Clone, Copy, Debug, PartialEq, Eq, Structural, PartialOrd, Ord, Hash)]
pub struct MusicTime {
    pub bar: u16,
    pub beat: u8,
    pub beat_interval: u8,
}

impl MusicTime {
    /// Strict lexicographic order over (bar, beat, beat interval).
    pub open spec fn is_before(&self, other: &MusicTime) -> bool {
        self.bar < other.bar || (self.bar == other.bar && (self.beat < other.beat || (self.beat
            == other.beat && self.beat_interval < other.beat_interval)))
    }

    pub fn new(bar: u16, beat: u8, beat_interval: u8) -> (time: MusicTime)
        ensures
            time == (MusicTime { bar, beat, beat_interval }),
    {
        MusicTime { bar, beat, beat_interval }
    }

    pub fn get_bar(&self) -> (bar: u16)
        ensures
            bar == self.bar,
    {
        self.bar
    }

    pub fn get_beat(&self) -> (beat: u8)
        ensures
            beat == self.beat,
    {
        self.beat
    }

    pub fn get_beat_interval(&self) -> (beat_interval: u8)
        ensures
            beat_interval == self.beat_interval,
    {
        self.beat_interval
    }

    /// Whether this time comes strictly before `other`.
    pub fn precedes(&self, other: &MusicTime) -> (before: bool)
        ensures
            before == self.is_before(other),
    {
        self.bar < other.bar || (self.bar == other.bar && (self.beat < other.beat || (self.beat
            == other.beat && self.beat_interval < other.beat_interval)))
    }

    /// Whether this time and `other` are the same point in time.
    pub fn same_as(&self, other: &MusicTime) -> (same: bool)
        ensures
            same == (*self == *other),
    {
        self.bar == other.bar && self.beat == other.beat && self.beat_interval
            == other.beat_interval
    }
}

impl Default for MusicTime {
    /// The first beat interval of the first beat of the first bar.
    fn default() -> (time: MusicTime)
        ensures
            time == (MusicTime { bar: 1, beat: 1, beat_interval: 1 }),
    {
        MusicTime { bar: 1, beat: 1, beat_interval: 1 }
    }
}

/// The order on times is irreflexive.
pub proof fn lemma_before_irreflexive(a: MusicTime)
    ensures
        !a.is_before(&a),
{
}

/// The order on times is transitive.
pub proof fn lemma_before_transitive(a: MusicTime, b: MusicTime, c: MusicTime)
    requires
        a.is_before(&b),
        b.is_before(&c),
    ensures
        a.is_before(&c),
{
}

/// Any two times are either equal or ordered one way.
pub proof fn lemma_before_total(a: MusicTime, b: MusicTime)
    ensures
        a == b || a.is_before(&b) || b.is_before(&a),
{
}

} // verus!
