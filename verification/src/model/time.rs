//! Times, their fields, and the arithmetic and text format that go with them.
pub mod carry;
pub mod decimal;
pub mod error;
pub mod field;
pub mod position;
pub mod text;

use self::error::ParseError;
use self::field::{parse_field, Field};
use self::position::{Hour, Minute, Msec, Name, Second};
use self::text::{format_time, parse_time};
use vstd::prelude::*;

verus! {

/// What a time holds: the values of its four fields.
pub struct TimeView {
    /// Number of hours.
    pub hours: u16,
    /// Number of minutes.
    pub mins: u16,
    /// Number of seconds.
    pub secs: u16,
    /// Number of milliseconds.
    pub micros: u16,
}

impl TimeView {
    /// The time whose fields are all zero.
    pub open spec fn zero() -> TimeView {
        TimeView { hours: 0, mins: 0, secs: 0, micros: 0 }
    }

    /// Whether each field is within the bound of its position.
    pub open spec fn wf(self) -> bool {
        &&& self.hours <= Name::Hours.spec_max()
        &&& self.mins <= Name::Minutes.spec_max()
        &&& self.secs <= Name::Seconds.spec_max()
        &&& self.micros <= Name::Milliseconds.spec_max()
    }

    /// Whether every field is zero.
    pub open spec fn is_zero(self) -> bool {
        self == TimeView::zero()
    }

    /// The value of the field at `pos`.
    pub open spec fn field(self, pos: Name) -> u16 {
        match pos {
            Name::Hours => self.hours,
            Name::Minutes => self.mins,
            Name::Seconds => self.secs,
            Name::Milliseconds => self.micros,
        }
    }

    /// This time with the field at `pos` replaced by `val`.
    pub open spec fn set_field(self, pos: Name, val: u16) -> TimeView {
        match pos {
            Name::Hours => TimeView { hours: val, ..self },
            Name::Minutes => TimeView { mins: val, ..self },
            Name::Seconds => TimeView { secs: val, ..self },
            Name::Milliseconds => TimeView { micros: val, ..self },
        }
    }

    /// The whole time in milliseconds.
    pub open spec fn total_msecs(self) -> int {
        self.hours * 3_600_000 + self.mins * 60_000 + self.secs * 1_000 + self.micros
    }

    /// The sum of two times. Each field, from milliseconds up, takes the sum
    /// of the two fields and of what the field below carried, reduced by its
    /// capacity; what the hours carry is dropped.
    pub open spec fn add(self, rhs: TimeView) -> TimeView {
        let micros = self.micros + rhs.micros;
        let secs = self.secs + rhs.secs + micros / 1000;
        let mins = self.mins + rhs.mins + secs / 60;
        let hours = self.hours + rhs.hours + mins / 60;
        TimeView {
            hours: (hours % 256) as u16,
            mins: (mins % 60) as u16,
            secs: (secs % 60) as u16,
            micros: (micros % 1000) as u16,
        }
    }
}

/// A time of hours, minutes, seconds and milliseconds.
#[derive(Copy, Clone, Debug)]
pub struct Time {
    /// Number of hours.
    pub hours: Field<Hour>,
    /// Number of minutes.
    pub mins: Field<Minute>,
    /// Number of seconds.
    pub secs: Field<Second>,
    /// Number of milliseconds.
    pub micros: Field<Msec>,
}

impl View for Time {
    type V = TimeView;

    open spec fn view(&self) -> TimeView {
        TimeView {
            hours: self.hours@,
            mins: self.mins@,
            secs: self.secs@,
            micros: self.micros@,
        }
    }
}

impl PartialEq for Time {
    fn eq(&self, other: &Self) -> (r: bool) {
        self.hours.value() == other.hours.value() && self.mins.value() == other.mins.value()
            && self.secs.value() == other.secs.value() && self.micros.value()
            == other.micros.value()
    }
}

impl Eq for Time {

}

impl vstd::std_specs::cmp::PartialEqSpecImpl for Time {
    open spec fn obeys_eq_spec() -> bool {
        true
    }

    /// Times are equal where all four fields are.
    open spec fn eq_spec(&self, other: &Self) -> bool {
        self@ == other@
    }
}

impl std::str::FromStr for Time {
    type Err = ParseError;

    /// Reads a time from text, as the method of the same name on `Time`.
    fn from_str(s: &str) -> (r: Result<Time, ParseError>)
        ensures
            Time::spec_result(r) == parse_time(s@),
    {
        Time::from_str(s)
    }
}

impl Default for Time {
    /// The zero time.
    fn default() -> (t: Self)
        ensures
            t@ == TimeView::zero(),
    {
        Time {
            hours: Field::default(),
            mins: Field::default(),
            secs: Field::default(),
            micros: Field::default(),
        }
    }
}

/// Adds `l`, `r` and `carry`, and splits the sum into what fits below
/// `modulo` and how many times `modulo` was taken off.
pub fn add_carry(l: u32, r: u32, carry: u32, modulo: u32) -> (res: (u32, u32))
    requires
        modulo > 0,
        l + r + carry <= u32::MAX,
    ensures
        res.0 == (l + r + carry) % (modulo as int),
        res.1 == (l + r + carry) / (modulo as int),
        res.0 < modulo,
        res.1 * modulo + res.0 == l + r + carry,
{
    let raw: u32 = l + r + carry;
    let c = carry::Carry::from_division(raw, modulo);
    (c.value, c.carry)
}

/// Reads the milliseconds of a time from what is left after the seconds:
/// nothing at all stands for zero.
pub fn parse_micros(s: &str) -> (r: Result<Field<Msec>, ParseError>)
    ensures
        Field::<Msec>::spec_result(r) == parse_field(Name::Milliseconds, s@),
{
    Field::<Msec>::from_str(s)
}

impl Time {
    /// The outcome `r` with the time replaced by its view.
    pub open spec fn spec_result(r: Result<Time, ParseError>) -> Result<TimeView, ParseError> {
        match r {
            Ok(t) => Ok(t@),
            Err(e) => Err(e),
        }
    }

    /// Whether every field is zero.
    pub fn is_zero(&self) -> (z: bool)
        ensures
            z == self@.is_zero(),
    {
        self.hours.value() == 0 && self.mins.value() == 0 && self.secs.value() == 0
            && self.micros.value() == 0
    }

    /// The whole time in milliseconds.
    pub fn as_msecs(&self) -> (ms: u32)
        ensures
            ms == self@.total_msecs(),
    {
        let hours: u32 = self.hours.value() as u32;
        let mins: u32 = self.mins.value() as u32;
        let secs: u32 = self.secs.value() as u32;
        let micros: u32 = self.micros.value() as u32;
        hours * Name::Hours.ms_offset() + mins * Name::Minutes.ms_offset() + secs
            * Name::Seconds.ms_offset() + micros
    }

    /// Adds two times, carrying from each field into the next coarser one.
    /// What the hours carry is dropped: the sum wraps at 256 hours.
    pub fn add(self, rhs: Time) -> (sum: Time)
        ensures
            sum@ == self@.add(rhs@),
    {
        let (micros, carry_secs) = add_carry(
            self.micros.value() as u32,
            rhs.micros.value() as u32,
            0,
            Name::Milliseconds.cap(),
        );
        let (secs, carry_mins) = add_carry(
            self.secs.value() as u32,
            rhs.secs.value() as u32,
            carry_secs,
            Name::Seconds.cap(),
        );
        let (mins, carry_hours) = add_carry(
            self.mins.value() as u32,
            rhs.mins.value() as u32,
            carry_mins,
            Name::Minutes.cap(),
        );
        let (hours, _) = add_carry(
            self.hours.value() as u32,
            rhs.hours.value() as u32,
            carry_hours,
            Name::Hours.cap(),
        );
        Time {
            hours: Field::new(hours as u16),
            mins: Field::new(mins as u16),
            secs: Field::new(secs as u16),
            micros: Field::new(micros as u16),
        }
    }

    /// Reads a time from text: hours up to `h`, minutes up to `m`, seconds
    /// up to `s`, each only if its letter is there, and what is left as
    /// milliseconds.
    pub fn from_str(s: &str) -> (r: Result<Time, ParseError>)
        ensures
            Time::spec_result(r) == parse_time(s@),
    {
        let (hours, s1) = match Field::<Hour>::parse_delimited(s) {
            Ok(x) => x,
            Err(e) => { return Err(e); },
        };
        let (mins, s2) = match Field::<Minute>::parse_delimited(s1) {
            Ok(x) => x,
            Err(e) => { return Err(e); },
        };
        let (secs, s3) = match Field::<Second>::parse_delimited(s2) {
            Ok(x) => x,
            Err(e) => { return Err(e); },
        };
        let micros = match parse_micros(s3) {
            Ok(x) => x,
            Err(e) => { return Err(e); },
        };
        Ok(Time { hours, mins, secs, micros })
    }

    /// Writes the time as text: hours and minutes only where they are not
    /// zero, the seconds always, the milliseconds only where not zero.
    pub fn to_string(&self) -> (s: String)
        ensures
            s@ == format_time(self@),
    {
        let mut out = String::new();
        self.hours.fmt_value_delimited(&mut out);
        self.mins.fmt_value_delimited(&mut out);
        self.secs.fmt_value(&mut out);
        out.push('s');
        self.micros.fmt_value_delimited(&mut out);
        assert(out@ =~= format_time(self@));
        out
    }

    /// Reads `s` as the field at `pos` and puts it in place of the field
    /// that is there. Where `s` cannot be read, the time stays as it is.
    pub fn set_field_str(&mut self, pos: Name, s: &str) -> (r: Result<(), ParseError>)
        ensures
            match parse_field(pos, s@) {
                Ok(val) => r is Ok && final(self)@ == old(self)@.set_field(pos, val),
                Err(e) => r == Err::<(), ParseError>(e) && final(self)@ == old(self)@,
            },
    {
        match pos {
            Name::Hours => match Field::<Hour>::from_str(s) {
                Ok(f) => { self.hours = f; Ok(()) },
                Err(e) => Err(e),
            },
            Name::Minutes => match Field::<Minute>::from_str(s) {
                Ok(f) => { self.mins = f; Ok(()) },
                Err(e) => Err(e),
            },
            Name::Seconds => match Field::<Second>::from_str(s) {
                Ok(f) => { self.secs = f; Ok(()) },
                Err(e) => Err(e),
            },
            Name::Milliseconds => match Field::<Msec>::from_str(s) {
                Ok(f) => { self.micros = f; Ok(()) },
                Err(e) => Err(e),
            },
        }
    }
}

} // verus!
