//! Time signatures: beats per bar over the note value of one beat.

use vstd::prelude::*;

verus! {

/// A time signature. The numerator is the number of beats in a bar.
#[derive(Clone, Copy, Debug, PartialEq, Eq, Structural, Hash)]
pub struct TimeSignature {
    pub numerator: u8,
    pub denominator: u8,
}

/// The denominators a time signature may have.
pub open spec fn is_supported_denominator(denominator: u8) -> bool {
    denominator == 2 || denominator == 4 || denominator == 8 || denominator == 16 || denominator
        == 32 || denominator == 64
}

impl TimeSignature {
    /// A signature is valid when it has at least one beat per bar and a
    /// supported denominator.
    pub open spec fn valid(&self) -> bool {
        self.numerator > 0 && is_supported_denominator(self.denominator)
    }

    pub fn new(numerator: u8, denominator: u8) -> (signature: TimeSignature)
        ensures
            signature == (TimeSignature { numerator, denominator }),
    {
        TimeSignature { numerator, denominator }
    }

    pub fn is_valid(&self) -> (valid: bool)
        ensures
            valid == self.valid(),
    {
        let denominator = self.denominator;
        self.numerator > 0 && (denominator == 2 || denominator == 4 || denominator == 8
            || denominator == 16 || denominator == 32 || denominator == 64)
    }

    pub fn get_numerator(&self) -> (numerator: u8)
        ensures
            numerator == self.numerator,
    {
        self.numerator
    }

    pub fn get_denominator(&self) -> (denominator: u8)
        ensures
            denominator == self.denominator,
    {
        self.denominator
    }

    pub fn as_tuple(&self) -> (pair: (u8, u8))
        ensures
            pair == (self.numerator, self.denominator),
    {
        (self.numerator, self.denominator)
    }
}

impl Default for TimeSignature {
    /// Common time: four beats to the bar.
    fn default() -> (signature: TimeSignature)
        ensures
            signature == (TimeSignature { numerator: 4, denominator: 4 }),
    {
        TimeSignature { numerator: 4, denominator: 4 }
    }
}

} // verus!
