//! What can go wrong when text is turned into a time.
use super::decimal::{decimal_digits, push_decimal};
use super::position::Name;
use vstd::prelude::*;
use vstd::string::*;

verus! {

/// Why a piece of text is not an unsigned number.
#[derive(Copy, Clone, Debug, PartialEq, Eq, Structural)]
pub enum IntError {
    /// There was no text at all.
    Empty,
    /// Some character is not a decimal digit, or only a sign was given.
    InvalidDigit,
    /// The digits denote a number that does not fit in 32 bits.
    PosOverflow,
}

/// An error from parsing a time or one of its fields.
#[derive(Copy, Clone, Debug, PartialEq, Eq, Structural)]
pub enum ParseError {
    /// The text for a field is not an unsigned number.
    FieldParse {
        /// The field being parsed.
        pos: Name,
        /// What was wrong with the text.
        err: IntError,
    },
    /// The number given for a field is larger than the field allows.
    FieldTooBig {
        /// The field being parsed.
        pos: Name,
        /// The number that was given.
        val: u32,
        /// The largest number the field allows.
        max: u16,
    },
}

impl IntError {
    /// What is said of this failure in messages.
    pub open spec fn spec_message(self) -> Seq<char> {
        match self {
            IntError::Empty => "cannot parse integer from empty string"@,
            IntError::InvalidDigit => "invalid digit found in string"@,
            IntError::PosOverflow => "number too large to fit in target type"@,
        }
    }

    /// What is said of this failure in messages.
    pub fn message(self) -> (s: &'static str)
        ensures
            s@ == self.spec_message(),
    {
        match self {
            IntError::Empty => "cannot parse integer from empty string",
            IntError::InvalidDigit => "invalid digit found in string",
            IntError::PosOverflow => "number too large to fit in target type",
        }
    }
}

impl ParseError {
    /// The position of the field that could not be read.
    pub open spec fn spec_position(self) -> Name {
        match self {
            ParseError::FieldParse { pos, .. } => pos,
            ParseError::FieldTooBig { pos, .. } => pos,
        }
    }

    /// The position of the field that could not be read.
    #[verifier::when_used_as_spec(spec_position)]
    pub fn position(self) -> (p: Name)
        ensures
            p == self.spec_position(),
    {
        match self {
            ParseError::FieldParse { pos, .. } => pos,
            ParseError::FieldTooBig { pos, .. } => pos,
        }
    }

    /// The error as a sentence: which field, and what was wrong with it.
    pub open spec fn spec_message(self) -> Seq<char> {
        match self {
            ParseError::FieldParse { pos, err } => "field "@ + pos.spec_label()
                + " failed parsing: "@ + err.spec_message(),
            ParseError::FieldTooBig { pos, val, max } => "field "@ + pos.spec_label()
                + " too big: was "@ + decimal_digits(val as nat) + ", max "@ + decimal_digits(
                max as nat,
            ),
        }
    }

    /// The error as a sentence: which field, and what was wrong with it.
    pub fn to_string(&self) -> (s: String)
        ensures
            s@ == self.spec_message(),
    {
        let mut out = String::from_str("field ");
        match *self {
            ParseError::FieldParse { pos, err } => {
                out.append(pos.label());
                out.append(" failed parsing: ");
                out.append(err.message());
            },
            ParseError::FieldTooBig { pos, val, max } => {
                out.append(pos.label());
                out.append(" too big: was ");
                push_decimal(&mut out, val);
                out.append(", max ");
                push_decimal(&mut out, max as u32);
            },
        }
        out
    }
}

} // verus!
