//! Font metrics: where each character lies in the font bitmap and on screen.
use vstd::prelude::*;

verus! {

/// Number of columns in the font bitmap.
/// The number of rows is 256 divided by the number of columns.
pub const COLS: u8 = 32;

/// Width of one character in the font, without padding.
pub const W: u8 = 7;

/// Height of one character in the font, without padding.
pub const H: u8 = 9;

/// Width of one character in the font, plus padding.
pub const WPAD: i32 = 8;

/// Height of one character in the font, plus padding.
pub const HPAD: i32 = 10;

/// A point in pixels.
#[derive(Copy, Clone, Debug, PartialEq, Eq, Structural)]
pub struct Point {
    /// Distance from the left edge.
    pub x: i32,
    /// Distance from the top edge.
    pub y: i32,
}

/// A rectangle in pixels.
#[derive(Copy, Clone, Debug, PartialEq, Eq, Structural)]
pub struct Rect {
    /// Distance of the left side from the left edge.
    pub x: i32,
    /// Distance of the top side from the top edge.
    pub y: i32,
    /// Width.
    pub w: u32,
    /// Height.
    pub h: u32,
}

/// Produces a rectangle with top-left `top_left` and the size of one font
/// character.
pub fn char_rect(top_left: Point) -> (r: Rect)
    ensures
        r == (Rect { x: top_left.x, y: top_left.y, w: 7, h: 9 }),
{
    Rect { x: top_left.x, y: top_left.y, w: W as u32, h: H as u32 }
}

/// Produces the appropriate rectangle for looking up `char` in the font:
/// the characters lie in rows of 32, each in a padded cell of 8 by 10.
pub fn font_rect(char: u8) -> (r: Rect)
    ensures
        r.x == (char % 32) * 8,
        r.y == (char / 32) * 10,
        r.w == 7,
        r.h == 9,
{
    let col: i32 = (char % COLS) as i32;
    let row: i32 = (char / COLS) as i32;
    char_rect(Point { x: col * WPAD, y: row * HPAD })
}

/// Offsets `point` by `dx` padded characters horizontally and `dy` vertically.
pub fn offset(point: Point, dx: i32, dy: i32) -> (p: Point)
    requires
        i32::MIN <= point.x + dx * 8 <= i32::MAX,
        i32::MIN <= point.y + dy * 10 <= i32::MAX,
        i32::MIN <= dx * 8 <= i32::MAX,
        i32::MIN <= dy * 10 <= i32::MAX,
    ensures
        p.x == point.x + dx * 8,
        p.y == point.y + dy * 10,
{
    Point { x: point.x + dx * WPAD, y: point.y + dy * HPAD }
}

} // verus!
