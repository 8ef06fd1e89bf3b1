//! One bounded component of a time.
use super::carry::Carry;
use super::decimal::{decimal_digits, parse_u32, parse_unsigned, push_decimal};
use super::error::ParseError;
use super::position::{Name, Position};
use std::cmp::Ordering;
use std::marker::PhantomData;
use vstd::prelude::*;
use vstd::string::*;

verus! {

/// What the number `val` becomes at position `pos`: itself if it is within
/// the position's bound, the `FieldTooBig` error if not.
pub open spec fn fit(pos: Name, val: u32) -> Result<u16, ParseError> {
    if val <= pos.spec_max() {
        Ok(val as u16)
    } else {
        Err(ParseError::FieldTooBig { pos, val, max: pos.spec_max() })
    }
}

/// What the text `s` denotes at position `pos`. No text at all stands for
/// zero; anything else has to be an unsigned number within the bound.
pub open spec fn parse_field(pos: Name, s: Seq<char>) -> Result<u16, ParseError> {
    if s.len() == 0 {
        Ok(0u16)
    } else {
        match parse_unsigned(s) {
            Err(err) => Err(ParseError::FieldParse { pos, err }),
            Ok(val) => fit(pos, val),
        }
    }
}

/// The index of the first `c` in `s`, or the length of `s` if it has none.
pub open spec fn first_index(s: Seq<char>, c: char) -> int
    decreases s.len(),
{
    if s.len() == 0 {
        0
    } else if s[0] == c {
        0
    } else {
        1 + first_index(s.skip(1), c)
    }
}

/// How `s` divides at the delimiter of `pos`: the text before the first
/// delimiter and the text after it. Where `s` has no such delimiter, nothing
/// is taken and all of `s` is left.
pub open spec fn split_delimiter(pos: Name, s: Seq<char>) -> (Seq<char>, Seq<char>) {
    match pos.spec_delimiter() {
        Some(d) => {
            let i = first_index(s, d);
            if i < s.len() {
                (s.take(i), s.skip(i + 1))
            } else {
                (Seq::empty(), s)
            }
        },
        None => (Seq::empty(), s),
    }
}

/// What the leading, delimited part of `s` denotes at position `pos`, and
/// the text that follows it.
pub open spec fn parse_delimited_field(pos: Name, s: Seq<char>) -> Result<
    (u16, Seq<char>),
    ParseError,
> {
    let (head, rest) = split_delimiter(pos, s);
    match parse_field(pos, head) {
        Ok(val) => Ok((val, rest)),
        Err(e) => Err(e),
    }
}

/// How a field's value is written on its own.
pub open spec fn format_field(val: u16) -> Seq<char> {
    decimal_digits(val as nat)
}

/// How a field is written inside a time: nothing if it is zero, else its
/// digits and then the position's delimiter, if it has one.
pub open spec fn format_field_delimited(pos: Name, val: u16) -> Seq<char> {
    if val == 0 {
        Seq::empty()
    } else {
        match pos.spec_delimiter() {
            Some(d) => decimal_digits(val as nat).push(d),
            None => decimal_digits(val as nat),
        }
    }
}

/// An index is the first occurrence of `c` exactly when `c` stands there and
/// nowhere before; the length is returned exactly when `c` stands nowhere.
pub proof fn lemma_first_index(s: Seq<char>, c: char, i: int)
    requires
        0 <= i <= s.len(),
        forall|j: int| 0 <= j < i ==> s[j] != c,
        i < s.len() ==> s[i] == c,
    ensures
        first_index(s, c) == i,
    decreases i,
{
    if i > 0 {
        let t = s.skip(1);
        assert(s[0] != c);
        assert forall|j: int| 0 <= j < i - 1 implies t[j] != c by {
            assert(t[j] == s[j + 1]);
        }
        lemma_first_index(t, c, i - 1);
    }
}

/// Finds the first `c` in `s`; gives the length of `s` where it has none.
pub fn find_char(s: &str, c: char) -> (i: usize)
    ensures
        i <= s@.len(),
        forall|j: int| 0 <= j < i ==> s@[j] != c,
        i < s@.len() ==> s@[i as int] == c,
        i == first_index(s@, c),
{
    let n: usize = s.unicode_len();
    let mut i: usize = 0;
    while i < n
        invariant
            i <= n,
            n == s@.len(),
            forall|j: int| 0 <= j < i ==> s@[j] != c,
        decreases n - i,
    {
        if s.get_char(i) == c {
            proof {
                lemma_first_index(s@, c, i as int);
            }
            return i;
        }
        i += 1;
    }
    proof {
        lemma_first_index(s@, c, n as int);
    }
    n
}

/// A field in a time: a number that never exceeds the bound of its
/// position `P`.
#[derive(Debug)]
pub struct Field<P: Position> {
    /// The value.
    val: u16,
    /// Ties the field to its position.
    phantom: PhantomData<P>,
}

impl<P: Position> View for Field<P> {
    type V = u16;

    closed spec fn view(&self) -> u16 {
        self.val
    }
}

impl<P: Position> Clone for Field<P> {
    fn clone(&self) -> (r: Self)
        ensures
            r@ == self@,
    {
        proof {
            use_type_invariant(self);
        }
        Field { val: self.val, phantom: PhantomData }
    }
}

impl<P: Position> Copy for Field<P> {

}

impl<P: Position> PartialEq for Field<P> {
    fn eq(&self, other: &Self) -> (r: bool) {
        self.val == other.val
    }
}

impl<P: Position> Eq for Field<P> {

}

impl<P: Position> vstd::std_specs::cmp::PartialEqSpecImpl for Field<P> {
    open spec fn obeys_eq_spec() -> bool {
        true
    }

    /// Fields are equal where their values are.
    open spec fn eq_spec(&self, other: &Self) -> bool {
        self@ == other@
    }
}

impl<P: Position> PartialOrd for Field<P> {
    fn partial_cmp(&self, other: &Self) -> (r: Option<Ordering>) {
        if self.val < other.val {
            Some(Ordering::Less)
        } else if self.val == other.val {
            Some(Ordering::Equal)
        } else {
            Some(Ordering::Greater)
        }
    }
}

impl<P: Position> vstd::std_specs::cmp::PartialOrdSpecImpl for Field<P> {
    open spec fn obeys_partial_cmp_spec() -> bool {
        true
    }

    /// Fields are ordered as their values are.
    open spec fn partial_cmp_spec(&self, other: &Self) -> Option<Ordering> {
        if self@ < other@ {
            Some(Ordering::Less)
        } else if self@ == other@ {
            Some(Ordering::Equal)
        } else {
            Some(Ordering::Greater)
        }
    }
}

/// The value of a field can be taken out, whatever its position.
impl<P: Position> From<Field<P>> for u16 {
    fn from(field: Field<P>) -> (v: u16) {
        field.val
    }
}

impl<P: Position> vstd::std_specs::convert::FromSpecImpl<Field<P>> for u16 {
    open spec fn obeys_from_spec() -> bool {
        true
    }

    open spec fn from_spec(field: Field<P>) -> u16 {
        field@
    }
}

impl<P: Position> Default for Field<P> {
    /// The zero field.
    fn default() -> (r: Self)
        ensures
            r@ == 0,
    {
        Self::new(0)
    }
}

impl<P: Position> Field<P> {
    /// Whether the value is within the bound of the position.
    #[verifier::type_invariant]
    pub open spec fn wf(&self) -> bool {
        self@ <= P::spec_name().spec_max()
    }

    /// Creates a new field with the given value.
    pub(super) fn new(val: u16) -> (r: Self)
        requires
            val <= P::spec_name().spec_max(),
        ensures
            r@ == val,
    {
        Field { val, phantom: PhantomData }
    }

    /// The value of the field, which is at most the position's bound.
    pub fn value(self) -> (v: u16)
        ensures
            v == self@,
            v <= P::spec_name().spec_max(),
    {
        proof {
            use_type_invariant(&self);
        }
        self.val
    }

    /// Fits as much of `val` as possible into a field, and returns the field
    /// and how many times the position's capacity was taken off.
    pub fn new_with_carry(val: u32) -> (c: Carry<Self>)
        ensures
            c.value@ == val % P::spec_name().spec_cap(),
            c.carry == val / P::spec_name().spec_cap(),
            c.carry * P::spec_name().spec_cap() + c.value@ == val,
            c.original == val,
    {
        let d = Carry::from_division(val, P::name().cap());
        Carry { value: Self::new(d.value as u16), carry: d.carry, original: d.original }
    }

    /// Accepts the field of `c` if nothing was carried out of it.
    pub fn try_from_carry(c: Carry<Self>) -> (r: Result<Self, ParseError>)
        ensures
            c.carry == 0 ==> Self::spec_result(r) == Ok::<u16, ParseError>(c.value@),
            c.carry != 0 ==> r == Err::<Self, ParseError>(
                ParseError::FieldTooBig {
                    pos: P::spec_name(),
                    val: c.original,
                    max: P::spec_name().spec_max(),
                },
            ),
    {
        if c.carry == 0 {
            Ok(c.value)
        } else {
            Err(ParseError::FieldTooBig { pos: P::name(), val: c.original, max: P::name().max() })
        }
    }

    /// Tries to fit `val` into this field.
    pub fn try_from(val: u32) -> (r: Result<Self, ParseError>)
        ensures
            Self::spec_result(r) == fit(P::spec_name(), val),
            val <= P::spec_name().spec_max() <==> r.is_ok(),
    {
        let c = Self::new_with_carry(val);
        proof {
            let cap = P::spec_name().spec_cap() as int;
            if val < cap {
                vstd::arithmetic::div_mod::lemma_small_mod(val as nat, cap as nat);
                vstd::arithmetic::div_mod::lemma_basic_div(val as int, cap);
            } else {
                vstd::arithmetic::div_mod::lemma_div_non_zero(val as int, cap);
            }
        }
        Self::try_from_carry(c)
    }

    /// The outcome `r` with the field replaced by its value.
    pub open spec fn spec_result(r: Result<Self, ParseError>) -> Result<u16, ParseError> {
        match r {
            Ok(f) => Ok(f@),
            Err(e) => Err(e),
        }
    }

    /// Reads a field from text. No text at all gives the zero field.
    pub fn from_str(s: &str) -> (r: Result<Self, ParseError>)
        ensures
            Self::spec_result(r) == parse_field(P::spec_name(), s@),
            r matches Ok(f) ==> f@ <= P::spec_name().spec_max(),
            parse_unsigned(s@) is Ok && parse_unsigned(s@).unwrap() > P::spec_name().spec_max()
                ==> Self::spec_result(r) == Err::<u16, ParseError>(
                ParseError::FieldTooBig {
                    pos: P::spec_name(),
                    val: parse_unsigned(s@).unwrap(),
                    max: P::spec_name().spec_max(),
                },
            ),
    {
        if s.unicode_len() == 0 {
            return Ok(Self::new(0));
        }
        match parse_u32(s) {
            Err(err) => Err(ParseError::FieldParse { pos: P::name(), err }),
            Ok(val) => Self::try_from(val),
        }
    }

    /// Looks for this position's delimiter in `s`. If there is one, reads the
    /// text before it as the field and returns the text after it. If there
    /// is none, returns the zero field and all of `s`.
    pub fn parse_delimited(s: &str) -> (r: Result<(Self, &str), ParseError>)
        ensures
            match r {
                Ok((f, rest)) => parse_delimited_field(P::spec_name(), s@) == Ok::<
                    (u16, Seq<char>),
                    ParseError,
                >((f@, rest@)),
                Err(e) => parse_delimited_field(P::spec_name(), s@) == Err::<
                    (u16, Seq<char>),
                    ParseError,
                >(e),
            },
    {
        match P::name().delimiter() {
            None => Ok((Self::new(0), s)),
            Some(d) => {
                let n: usize = s.unicode_len();
                let i: usize = find_char(s, d);
                if i < n {
                    let head = s.substring_char(0, i);
                    let rest = s.substring_char(i + 1, n);
                    assert(head@ =~= s@.take(i as int));
                    assert(rest@ =~= s@.skip(i + 1));
                    match Self::from_str(head) {
                        Ok(f) => Ok((f, rest)),
                        Err(e) => Err(e),
                    }
                } else {
                    Ok((Self::new(0), s))
                }
            },
        }
    }

    /// Returns this field's value as milliseconds.
    pub fn as_msecs(self) -> (ms: u32)
        ensures
            ms == self@ * P::spec_name().spec_ms_offset(),
    {
        let v: u16 = self.value();
        let offset: u32 = P::name().ms_offset();
        assert(v * offset <= 255 * 3_600_000) by (nonlinear_arith)
            requires
                (v <= 255 && offset == 3_600_000) || (v <= 59 && offset <= 60_000) || (v <= 999
                    && offset == 1),
        ;
        (v as u32) * offset
    }

    /// Appends the value to `out`, in decimal.
    pub fn fmt_value(self, out: &mut String)
        ensures
            final(out)@ == old(out)@ + format_field(self@),
    {
        push_decimal(out, self.value() as u32);
    }

    /// Appends the value and the position's delimiter to `out`, if the value
    /// is not zero.
    pub fn fmt_value_delimited(self, out: &mut String)
        ensures
            final(out)@ == old(out)@ + format_field_delimited(P::spec_name(), self@),
    {
        let v: u16 = self.value();
        if v != 0 {
            push_decimal(out, v as u32);
            match P::name().delimiter() {
                Some(d) => {
                    out.push(d);
                    assert(final(out)@ =~= old(out)@ + format_field_delimited(P::spec_name(), self@));
                },
                None => {},
            }
        } else {
            assert(old(out)@ =~= old(out)@ + Seq::<char>::empty());
        }
    }
}

} // verus!
