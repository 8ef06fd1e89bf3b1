//! Colour mappings for the user interface.
use crate::model::pace::Pace;
use crate::presenter::cursor::SplitPosition;
use vstd::prelude::*;

verus! {

/// `css_color_parser::Color`: a colour as red, green, blue and alpha.
#[verifier::external_type_specification]
#[verifier::external_body]
pub struct ExColor(css_color_parser::Color);

/// `css_color_parser::ColorParseError`: the text is not a colour.
#[verifier::external_type_specification]
#[verifier::external_body]
pub struct ExColorParseError(css_color_parser::ColorParseError);

/// The colour that `css_color_parser` reads from the text `s`, if it reads
/// one.
pub uninterp spec fn css_colour(s: Seq<char>) -> Option<css_color_parser::Color>;

/// Calls the `FromStr` impl of `css_color_parser::Color`. The outcome is
/// taken to depend on the text alone: success with the colour that
/// `css_colour` names, failure where it names none.
#[verifier::external_body]
fn parse_css(s: &str) -> (r: Result<css_color_parser::Color, css_color_parser::ColorParseError>)
    ensures
        match r {
            Ok(c) => css_colour(s@) == Some(c),
            Err(_) => css_colour(s@) is None,
        },
{
    s.parse()
}

/// A colour.
#[derive(Copy, Clone, Debug)]
pub struct Colour(pub css_color_parser::Color);

/// Errors that can occur when parsing a colour.
#[derive(Debug)]
pub enum Error {
    /// The text is not a colour.
    Malformed(css_color_parser::ColorParseError),
}

impl Colour {
    /// Turns the outcome of reading a colour into the library's own terms.
    pub fn from_parsed(
        parsed: Result<css_color_parser::Color, css_color_parser::ColorParseError>,
    ) -> (r: Result<Colour, Error>)
        ensures
            match parsed {
                Ok(c) => r matches Ok(colour) && colour.0 == c,
                Err(e) => r matches Err(Error::Malformed(inner)) && inner == e,
            },
    {
        match parsed {
            Ok(c) => Ok(Colour(c)),
            Err(e) => Err(Error::Malformed(e)),
        }
    }

    /// Reads a colour from text in any of the forms that CSS knows.
    pub fn from_str(s: &str) -> (r: Result<Colour, Error>)
        ensures
            match r {
                Ok(colour) => css_colour(s@) == Some(colour.0),
                Err(_) => css_colour(s@) is None,
            },
    {
        Colour::from_parsed(parse_css(s))
    }
}

/// A set of colours to use in the user interface.
#[derive(Copy, Clone, Debug)]
pub struct ColourSet {
    /// Main background colour.
    pub bg: Colour,
    /// Foreground text for the split editor.
    pub fg_editor: Colour,
    /// Foreground text for the split editor's current field.
    pub fg_editor_field: Colour,
    /// Foreground text for headers.
    pub fg_header: Colour,
    /// Foreground text for splits already passed.
    pub fg_done: Colour,
    /// Foreground text for normal splits.
    pub fg_normal: Colour,
    /// Foreground text for the split currently under the cursor.
    pub fg_cursor: Colour,
    /// Foreground text for a time when there is no time entered.
    pub fg_time_none: Colour,
    /// Foreground text for a time when the run is ahead of comparison.
    pub fg_time_run_ahead: Colour,
    /// Foreground text for a time when the split is ahead of comparison.
    /// (Often referred to as a 'gold split'.)
    pub fg_time_split_ahead: Colour,
    /// Foreground text for a time when the run is behind comparison.
    pub fg_time_run_behind: Colour,
}

/// High-level colour keys.
#[derive(Copy, Clone, Debug, PartialEq, Eq, Structural, Hash)]
pub enum Key {
    /// Maps to the split editor colour.
    Editor,
    /// Maps to the field editor colour.
    FieldEditor,
    /// Maps to the header colour.
    Header,
    /// Maps to the colour of a split name at a given position.
    Name(SplitPosition),
    /// Maps to a time that hasn't been reported.
    NoTime,
    /// Maps to a pacing colour.
    Pace(Pace),
}

impl ColourSet {
    /// The foreground colour for a key.
    pub open spec fn spec_by_key(&self, key: Key) -> Colour {
        match key {
            Key::Header => self.fg_header,
            Key::Name(pos) => self.spec_by_split_position(pos),
            Key::NoTime => self.fg_time_none,
            Key::Pace(pace) => self.spec_by_pace(pace),
            Key::Editor => self.fg_editor,
            Key::FieldEditor => self.fg_editor_field,
        }
    }

    /// The foreground colour for a pace.
    pub open spec fn spec_by_pace(&self, pace: Pace) -> Colour {
        match pace {
            Pace::PersonalBest => self.fg_time_split_ahead,
            Pace::Behind => self.fg_time_run_ahead,
            Pace::Ahead => self.fg_time_run_behind,
            Pace::Inconclusive => self.fg_normal,
        }
    }

    /// The foreground colour for the name of a split.
    pub open spec fn spec_by_split_position(&self, sp: SplitPosition) -> Colour {
        match sp {
            SplitPosition::Done => self.fg_done,
            SplitPosition::Cursor => self.fg_cursor,
            SplitPosition::Coming => self.fg_normal,
        }
    }

    /// Gets a foreground colour by its key.
    pub fn by_key(&self, key: Key) -> (c: Colour)
        ensures
            c == self.spec_by_key(key),
    {
        match key {
            Key::Header => self.fg_header,
            Key::Name(pos) => self.by_split_position(pos),
            Key::NoTime => self.fg_time_none,
            Key::Pace(pace) => self.by_pace(pace),
            Key::Editor => self.fg_editor,
            Key::FieldEditor => self.fg_editor_field,
        }
    }

    /// Gets the foreground colour for a pace.
    pub fn by_pace(&self, pace: Pace) -> (c: Colour)
        ensures
            c == self.spec_by_pace(pace),
    {
        match pace {
            Pace::PersonalBest => self.fg_time_split_ahead,
            Pace::Behind => self.fg_time_run_ahead,
            Pace::Ahead => self.fg_time_run_behind,
            Pace::Inconclusive => self.fg_normal,
        }
    }

    /// Gets the foreground colour for the name of a split.
    pub fn by_split_position(&self, sp: SplitPosition) -> (c: Colour)
        ensures
            c == self.spec_by_split_position(sp),
    {
        match sp {
            SplitPosition::Done => self.fg_done,
            SplitPosition::Cursor => self.fg_cursor,
            SplitPosition::Coming => self.fg_normal,
        }
    }
}

} // verus!
