//! Positions: which field of a time a value belongs to, and what that implies.
use vstd::prelude::*;

verus! {

/// The name of a position in a time.
#[derive(Copy, Clone, Debug, PartialEq, Eq, Structural, Hash)]
pub enum Name {
    /// Hours.
    Hours,
    /// Minutes.
    Minutes,
    /// Seconds.
    Seconds,
    /// Milliseconds.
    Milliseconds,
}

impl Name {
    /// The largest value a field at this position may hold.
    pub open spec fn spec_max(self) -> u16 {
        match self {
            Name::Hours => 255,
            Name::Minutes => 59,
            Name::Seconds => 59,
            Name::Milliseconds => 999,
        }
    }

    /// The largest value a field at this position may hold.
    #[verifier::when_used_as_spec(spec_max)]
    pub fn max(self) -> (m: u16)
        ensures
            m == self.spec_max(),
    {
        match self {
            Name::Hours => 255,
            Name::Minutes => 59,
            Name::Seconds => 59,
            Name::Milliseconds => 999,
        }
    }

    /// The number of distinct values at this position: one more than `max`.
    pub open spec fn spec_cap(self) -> u32 {
        (self.spec_max() + 1) as u32
    }

    /// The number of distinct values at this position: one more than `max`.
    #[verifier::when_used_as_spec(spec_cap)]
    pub fn cap(self) -> (c: u32)
        ensures
            c == self.spec_cap(),
            c == self.spec_max() + 1,
            c > 0,
    {
        match self {
            Name::Hours => 256,
            Name::Minutes => 60,
            Name::Seconds => 60,
            Name::Milliseconds => 1000,
        }
    }

    /// The character that follows this position's digits in a written time,
    /// if it has one.
    pub open spec fn spec_delimiter(self) -> Option<char> {
        match self {
            Name::Hours => Some('h'),
            Name::Minutes => Some('m'),
            Name::Seconds => Some('s'),
            Name::Milliseconds => None,
        }
    }

    /// The character that follows this position's digits in a written time,
    /// if it has one.
    #[verifier::when_used_as_spec(spec_delimiter)]
    pub fn delimiter(self) -> (d: Option<char>)
        ensures
            d == self.spec_delimiter(),
    {
        match self {
            Name::Hours => Some('h'),
            Name::Minutes => Some('m'),
            Name::Seconds => Some('s'),
            Name::Milliseconds => None,
        }
    }

    /// How many milliseconds one unit at this position is worth.
    pub open spec fn spec_ms_offset(self) -> u32 {
        match self {
            Name::Hours => 3_600_000,
            Name::Minutes => 60_000,
            Name::Seconds => 1_000,
            Name::Milliseconds => 1,
        }
    }

    /// How many milliseconds one unit at this position is worth.
    #[verifier::when_used_as_spec(spec_ms_offset)]
    pub fn ms_offset(self) -> (ms: u32)
        ensures
            ms == self.spec_ms_offset(),
    {
        match self {
            Name::Hours => 3_600_000,
            Name::Minutes => 60_000,
            Name::Seconds => 1_000,
            Name::Milliseconds => 1,
        }
    }

    /// The word used for this position in messages.
    pub open spec fn spec_label(self) -> Seq<char> {
        match self {
            Name::Hours => "hours"@,
            Name::Minutes => "minutes"@,
            Name::Seconds => "seconds"@,
            Name::Milliseconds => "milliseconds"@,
        }
    }

    /// The word used for this position in messages.
    pub fn label(self) -> (s: &'static str)
        ensures
            s@ == self.spec_label(),
    {
        match self {
            Name::Hours => "hours",
            Name::Minutes => "minutes",
            Name::Seconds => "seconds",
            Name::Milliseconds => "milliseconds",
        }
    }
}

/// A type-level tag that fixes the position of a field.
pub trait Position: Sized {
    /// The position this tag stands for.
    spec fn spec_name() -> Name;

    /// The position this tag stands for.
    fn name() -> (n: Name)
        ensures
            n == Self::spec_name(),
    ;
}

/// Tag for the hours position.
#[derive(Copy, Clone, Debug)]
pub struct Hour;

/// Tag for the minutes position.
#[derive(Copy, Clone, Debug)]
pub struct Minute;

/// Tag for the seconds position.
#[derive(Copy, Clone, Debug)]
pub struct Second;

/// Tag for the milliseconds position.
#[derive(Copy, Clone, Debug)]
pub struct Msec;

impl Position for Hour {
    open spec fn spec_name() -> Name {
        Name::Hours
    }

    fn name() -> Name {
        Name::Hours
    }
}

impl Position for Minute {
    open spec fn spec_name() -> Name {
        Name::Minutes
    }

    fn name() -> Name {
        Name::Minutes
    }
}

impl Position for Second {
    open spec fn spec_name() -> Name {
        Name::Seconds
    }

    fn name() -> Name {
        Name::Seconds
    }
}

impl Position for Msec {
    open spec fn spec_name() -> Name {
        Name::Milliseconds
    }

    fn name() -> Name {
        Name::Milliseconds
    }
}

} // verus!
