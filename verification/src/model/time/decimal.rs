//! Decimal notation: reading unsigned numbers from text and writing them out.
use super::error::IntError;
use vstd::prelude::*;
use vstd::string::*;

verus! {

/// Whether `c` is one of `0` to `9`.
pub open spec fn is_digit(c: char) -> bool {
    '0' <= c && c <= '9'
}

/// The number that the digit `c` stands for.
pub open spec fn digit_value(c: char) -> nat
    recommends
        is_digit(c),
{
    (c as u32 - 48) as nat
}

/// The digit that stands for `d`.
pub open spec fn digit_char(d: nat) -> char
    recommends
        d < 10,
{
    ((48 + d) as u8) as char
}

/// Whether every character of `s` is a digit.
pub open spec fn all_digits(s: Seq<char>) -> bool {
    forall|i: int| 0 <= i < s.len() ==> is_digit(#[trigger] s[i])
}

/// The number written by the digits `s`, most significant first.
pub open spec fn decimal_value(s: Seq<char>) -> nat
    decreases s.len(),
{
    if s.len() == 0 {
        0
    } else {
        decimal_value(s.drop_last()) * 10 + digit_value(s.last())
    }
}

/// The shortest decimal notation of `n`.
pub open spec fn decimal_digits(n: nat) -> Seq<char>
    decreases n,
{
    if n < 10 {
        seq![digit_char(n)]
    } else {
        decimal_digits(n / 10).push(digit_char(n % 10))
    }
}

/// The digits of `s`: what is left once one leading `+` is taken off.
pub open spec fn unsigned_body(s: Seq<char>) -> Seq<char> {
    if s.len() > 0 && s[0] == '+' {
        s.skip(1)
    } else {
        s
    }
}

/// What `s` denotes as an unsigned 32-bit number: an optional `+` followed by
/// one or more digits whose value fits.
pub open spec fn parse_unsigned(s: Seq<char>) -> Result<u32, IntError> {
    let body = unsigned_body(s);
    if s.len() == 0 {
        Err(IntError::Empty)
    } else if body.len() == 0 || !all_digits(body) {
        Err(IntError::InvalidDigit)
    } else if decimal_value(body) > u32::MAX {
        Err(IntError::PosOverflow)
    } else {
        Ok(decimal_value(body) as u32)
    }
}

/// Reading one more digit never makes the number smaller.
pub proof fn lemma_decimal_value_grows(s: Seq<char>, n: int)
    requires
        0 <= n < s.len(),
        is_digit(s[n]),
    ensures
        s.take(n + 1).drop_last() == s.take(n),
        decimal_value(s.take(n + 1)) == decimal_value(s.take(n)) * 10 + digit_value(s[n]),
        decimal_value(s.take(n + 1)) >= decimal_value(s.take(n)),
{
    assert(s.take(n + 1).drop_last() =~= s.take(n));
    assert(s.take(n + 1).last() == s[n]);
}

/// Writing a number and reading it back gives the number.
pub proof fn lemma_decimal_digits(n: nat)
    ensures
        decimal_digits(n).len() >= 1,
        all_digits(decimal_digits(n)),
        decimal_value(decimal_digits(n)) == n,
    decreases n,
{
    if n < 10 {
        let s = seq![digit_char(n)];
        assert(s.len() == 1);
        assert(s[0] == digit_char(n));
        assert(is_digit(digit_char(n)));
        assert(s.drop_last() =~= Seq::<char>::empty());
        assert(s.last() == digit_char(n));
        assert(decimal_value(s.drop_last()) == 0);
        assert(digit_value(digit_char(n)) == n);
        assert(decimal_value(s) == n);
    } else {
        lemma_decimal_digits(n / 10);
        let p = decimal_digits(n / 10);
        let c = digit_char(n % 10);
        let s = p.push(c);
        assert(is_digit(c));
        assert(s.drop_last() =~= p);
        assert(s.last() == c);
        assert(digit_value(c) == n % 10);
        assert(decimal_value(s) == (n / 10) * 10 + n % 10);
        assert forall|i: int| 0 <= i < s.len() implies is_digit(#[trigger] s[i]) by {
            if i < p.len() {
                assert(s[i] == p[i]);
            }
        }
    }
}

/// Reads `s` as an unsigned number.
pub fn parse_u32(s: &str) -> (r: Result<u32, IntError>)
    ensures
        r == parse_unsigned(s@),
{
    let n: usize = s.unicode_len();
    if n == 0 {
        return Err(IntError::Empty);
    }
    let start: usize = if s.get_char(0) == '+' { 1 } else { 0 };
    if start == n {
        return Err(IntError::InvalidDigit);
    }
    let ghost body = unsigned_body(s@);
    assert(body =~= s@.skip(start as int));
    let mut acc: u32 = 0;
    let mut overflow: bool = false;
    let mut i: usize = start;
    assert(body.take(0) =~= Seq::<char>::empty());
    while i < n
        invariant
            start <= i <= n,
            n == s@.len(),
            body == s@.skip(start as int),
            body == unsigned_body(s@),
            all_digits(body.take(i - start)),
            !overflow ==> acc == decimal_value(body.take(i - start)),
            overflow ==> decimal_value(body.take(i - start)) > u32::MAX,
        decreases n - i,
    {
        let c: char = s.get_char(i);
        let ghost k: int = i - start;
        assert(body[k] == c);
        if !(c >= '0' && c <= '9') {
            assert(!is_digit(body[k]));
            return Err(IntError::InvalidDigit);
        }
        proof {
            lemma_decimal_value_grows(body, k);
            assert forall|j: int| 0 <= j < k + 1 implies is_digit(#[trigger] body.take(k + 1)[j]) by {
                if j < k {
                    assert(body.take(k + 1)[j] == body.take(k)[j]);
                }
            }
        }
        let d: u32 = (c as u32) - 48;
        if !overflow {
            if acc > (u32::MAX - d) / 10 {
                overflow = true;
            } else {
                acc = acc * 10 + d;
            }
        }
        i += 1;
    }
    assert(body.take(n - start) =~= body);
    if overflow {
        Err(IntError::PosOverflow)
    } else {
        Ok(acc)
    }
}

/// Appends `c` to `s`, as `String::push` of the standard library does.
pub assume_specification[ String::push ](s: &mut String, c: char)
    ensures
        final(s)@ == old(s)@.push(c),
;

/// Takes the last character off `s` and returns it, as `String::pop` of the
/// standard library does; an empty `s` stays as it is and gives `None`.
pub assume_specification[ String::pop ](s: &mut String) -> (r: Option<char>)
    ensures
        old(s)@.len() == 0 ==> r.is_none() && final(s)@ == old(s)@,
        old(s)@.len() > 0 ==> r == Some(old(s)@.last()) && final(s)@ == old(s)@.drop_last(),
;

/// Appends the decimal notation of `n` to `out`.
pub fn push_decimal(out: &mut String, n: u32)
    ensures
        final(out)@ == old(out)@ + decimal_digits(n as nat),
    decreases n,
{
    if n >= 10 {
        push_decimal(out, n / 10);
    }
    let d: u8 = (n % 10) as u8;
    let c: char = (48u8 + d) as char;
    assert(c == digit_char((n % 10) as nat));
    out.push(c);
    proof {
        if n < 10 {
            assert(old(out)@.push(c) =~= old(out)@ + decimal_digits(n as nat));
        } else {
            assert((old(out)@ + decimal_digits((n / 10) as nat)).push(c) =~= old(out)@
                + decimal_digits(n as nat));
        }
    }
}

} // verus!
