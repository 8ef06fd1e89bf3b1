//! The written form of a time.
use super::decimal::{decimal_digits, is_digit, lemma_decimal_digits, unsigned_body};
use super::error::ParseError;
use super::field::{
    format_field_delimited, lemma_first_index, parse_delimited_field, parse_field,
    split_delimiter,
};
use super::position::Name;
use super::TimeView;
use vstd::prelude::*;

verus! {

/// What the text `s` denotes as a time. Hours, minutes and seconds are read
/// in that order, each up to its delimiter and only if the delimiter is
/// there; what is left is the milliseconds. The first field that cannot be
/// read decides the error.
pub open spec fn parse_time(s: Seq<char>) -> Result<TimeView, ParseError> {
    match parse_delimited_field(Name::Hours, s) {
        Err(e) => Err(e),
        Ok((hours, s1)) => match parse_delimited_field(Name::Minutes, s1) {
            Err(e) => Err(e),
            Ok((mins, s2)) => match parse_delimited_field(Name::Seconds, s2) {
                Err(e) => Err(e),
                Ok((secs, s3)) => match parse_field(Name::Milliseconds, s3) {
                    Err(e) => Err(e),
                    Ok(micros) => Ok(TimeView { hours, mins, secs, micros }),
                },
            },
        },
    }
}

/// How the time `t` is written: hours and minutes with their letters where
/// they are not zero, the seconds and `s` always, the milliseconds where
/// they are not zero.
pub open spec fn format_time(t: TimeView) -> Seq<char> {
    format_field_delimited(Name::Hours, t.hours) + format_field_delimited(Name::Minutes, t.mins)
        + decimal_digits(t.secs as nat).push('s') + format_field_delimited(
        Name::Milliseconds,
        t.micros,
    )
}

/// Whether `c` stands nowhere in `s`.
pub open spec fn lacks(s: Seq<char>, c: char) -> bool {
    forall|i: int| 0 <= i < s.len() ==> #[trigger] s[i] != c
}

/// The digits of a number hold nothing but digits.
pub proof fn lemma_digits_lack(n: nat, c: char)
    requires
        !is_digit(c),
    ensures
        lacks(decimal_digits(n), c),
{
    lemma_decimal_digits(n);
}

/// A value within the bound of its position is read back from its digits.
pub proof fn lemma_parse_field_digits(pos: Name, val: u16)
    requires
        val <= pos.spec_max(),
    ensures
        parse_field(pos, decimal_digits(val as nat)) == Ok::<u16, ParseError>(val),
{
    lemma_decimal_digits(val as nat);
    let d = decimal_digits(val as nat);
    assert(is_digit(d[0]));
    assert(unsigned_body(d) == d);
}

/// Digits followed by the delimiter are read as the field, whatever comes
/// after the delimiter, and what comes after is left over.
pub proof fn lemma_delimiter_present(pos: Name, val: u16, tail: Seq<char>)
    requires
        pos.spec_delimiter() is Some,
        val <= pos.spec_max(),
    ensures
        parse_delimited_field(
            pos,
            decimal_digits(val as nat).push(pos.spec_delimiter().unwrap()) + tail,
        ) == Ok::<(u16, Seq<char>), ParseError>((val, tail)),
{
    let d = pos.spec_delimiter().unwrap();
    let digits = decimal_digits(val as nat);
    let s = digits.push(d) + tail;
    let i = digits.len() as int;
    lemma_decimal_digits(val as nat);
    lemma_parse_field_digits(pos, val);
    assert(!is_digit(d));
    assert forall|j: int| 0 <= j < i implies s[j] != d by {
        assert(s[j] == digits[j]);
        assert(is_digit(digits[j]));
    }
    assert(s[i] == d);
    lemma_first_index(s, d, i);
    assert(s.take(i) =~= digits);
    assert(s.skip(i + 1) =~= tail);
}

/// Text without the delimiter is left over whole, and the field is zero.
pub proof fn lemma_delimiter_absent(pos: Name, tail: Seq<char>)
    requires
        pos.spec_delimiter() is Some,
        lacks(tail, pos.spec_delimiter().unwrap()),
    ensures
        parse_delimited_field(pos, tail) == Ok::<(u16, Seq<char>), ParseError>((0u16, tail)),
{
    lemma_first_index(tail, pos.spec_delimiter().unwrap(), tail.len() as int);
}

/// A field as it is written inside a time is read back, and what follows it
/// is left over, provided that the delimiter does not occur there.
pub proof fn lemma_written_field_is_read(pos: Name, val: u16, tail: Seq<char>)
    requires
        pos.spec_delimiter() is Some,
        val <= pos.spec_max(),
        lacks(tail, pos.spec_delimiter().unwrap()),
    ensures
        parse_delimited_field(pos, format_field_delimited(pos, val) + tail) == Ok::<
            (u16, Seq<char>),
            ParseError,
        >((val, tail)),
{
    if val == 0 {
        assert(format_field_delimited(pos, val) + tail =~= tail);
        lemma_delimiter_absent(pos, tail);
    } else {
        lemma_delimiter_present(pos, val, tail);
    }
}

/// Reading a written time gives the time back: whatever `to_string` writes
/// for a time, `from_str` reads as that time.
pub proof fn lemma_format_then_parse(t: TimeView)
    requires
        t.wf(),
    ensures
        parse_time(format_time(t)) == Ok::<TimeView, ParseError>(t),
{
    let h = format_field_delimited(Name::Hours, t.hours);
    let m = format_field_delimited(Name::Minutes, t.mins);
    let s = decimal_digits(t.secs as nat).push('s');
    let u = format_field_delimited(Name::Milliseconds, t.micros);
    lemma_digits_lack(t.mins as nat, 'h');
    lemma_digits_lack(t.secs as nat, 'h');
    lemma_digits_lack(t.micros as nat, 'h');
    lemma_digits_lack(t.secs as nat, 'm');
    lemma_digits_lack(t.micros as nat, 'm');
    let s3 = u;
    let s2 = s + s3;
    let s1 = m + s2;
    let s0 = h + s1;
    assert(format_time(t) =~= s0);
    assert(lacks(s, 'h') && lacks(s, 'm'));
    assert(lacks(u, 'h') && lacks(u, 'm'));
    assert(lacks(s2, 'h') && lacks(s2, 'm'));
    assert(lacks(m, 'h'));
    assert(lacks(s1, 'h'));
    lemma_written_field_is_read(Name::Hours, t.hours, s1);
    lemma_written_field_is_read(Name::Minutes, t.mins, s2);
    lemma_delimiter_present(Name::Seconds, t.secs, s3);
    if t.micros != 0 {
        lemma_parse_field_digits(Name::Milliseconds, t.micros);
    }
}

/// Whatever is read as a field is within the bound of the position.
pub proof fn lemma_parsed_field_is_bounded(pos: Name, s: Seq<char>)
    ensures
        parse_field(pos, s) matches Ok(val) ==> val <= pos.spec_max(),
        parse_delimited_field(pos, s) matches Ok(p) ==> p.0 <= pos.spec_max(),
{
    let (head, rest) = split_delimiter(pos, s);
    assert(parse_field(pos, head) matches Ok(val) ==> val <= pos.spec_max());
}

/// Whatever is read as a time has each field within its bound.
pub proof fn lemma_parsed_time_is_bounded(s: Seq<char>)
    ensures
        parse_time(s) matches Ok(t) ==> t.wf(),
{
    if let Ok((hours, s1)) = parse_delimited_field(Name::Hours, s) {
        lemma_parsed_field_is_bounded(Name::Hours, s);
        if let Ok((mins, s2)) = parse_delimited_field(Name::Minutes, s1) {
            lemma_parsed_field_is_bounded(Name::Minutes, s1);
            if let Ok((secs, s3)) = parse_delimited_field(Name::Seconds, s2) {
                lemma_parsed_field_is_bounded(Name::Seconds, s2);
                lemma_parsed_field_is_bounded(Name::Milliseconds, s3);
            }
        }
    }
}

/// Round trip on values: a text that is read as a time, written out and
/// read again, gives the same time. The text itself need not come back.
pub proof fn lemma_parse_format_parse(s: Seq<char>)
    requires
        parse_time(s) is Ok,
    ensures
        parse_time(format_time(parse_time(s)->Ok_0)) == parse_time(s),
{
    lemma_parsed_time_is_bounded(s);
    lemma_format_then_parse(parse_time(s)->Ok_0);
}

/// Adding two times adds their lengths in milliseconds, up to the 256 hours
/// at which the sum wraps; and the sum has each field within its bound.
pub proof fn lemma_add_total_msecs(a: TimeView, b: TimeView)
    requires
        a.wf(),
        b.wf(),
    ensures
        a.add(b).wf(),
        a.add(b).total_msecs() == (a.total_msecs() + b.total_msecs()) % 921_600_000,
{
    let micros = a.micros + b.micros;
    let secs = a.secs + b.secs + micros / 1000;
    let mins = a.mins + b.mins + secs / 60;
    let hours = a.hours + b.hours + mins / 60;
    let q = hours / 256;
    let r = a.add(b).total_msecs();
    assert(0 <= q <= 1);
    assert(a.total_msecs() + b.total_msecs() == 921_600_000 * q + r);
    vstd::arithmetic::div_mod::lemma_fundamental_div_mod_converse(
        a.total_msecs() + b.total_msecs(),
        921_600_000,
        q,
        r,
    );
}

} // verus!
