use zombiesplit::model::pace::Pace;
use zombiesplit::presenter::cursor::{Cursor, Motion, SplitPosition};
use zombiesplit::view::gfx::colour::{Colour, ColourSet, Error, Key};
use zombiesplit::view::gfx::metrics::{char_rect, font_rect, offset, Point, Rect};

fn colour(text: &str) -> Colour {
    Colour::from_str(text).expect("should be a colour")
}

fn rgb(c: Colour) -> (u8, u8, u8) {
    (c.0.r, c.0.g, c.0.b)
}

fn palette() -> ColourSet {
    ColourSet {
        bg: colour("#000000"),
        fg_editor: colour("#010101"),
        fg_editor_field: colour("#020202"),
        fg_header: colour("#030303"),
        fg_done: colour("#040404"),
        fg_normal: colour("#050505"),
        fg_cursor: colour("#060606"),
        fg_time_none: colour("#070707"),
        fg_time_run_ahead: colour("#080808"),
        fg_time_split_ahead: colour("#090909"),
        fg_time_run_behind: colour("#0a0a0a"),
    }
}

#[test]
fn colour_from_str_reads_css_colours() {
    let c = colour("#ff8000");
    assert_eq!(rgb(c), (255, 128, 0));
    assert_eq!(c.0.a, 1.0);
    assert_eq!(rgb(colour("#fff")), (255, 255, 255));
    assert_eq!(rgb(colour("red")), (255, 0, 0));
    let c = colour("rgba(1, 2, 3, 0.5)");
    assert_eq!(rgb(c), (1, 2, 3));
    assert_eq!(c.0.a, 0.5);
}

#[test]
fn colour_from_str_rejects_what_is_no_colour() {
    assert!(matches!(Colour::from_str(""), Err(Error::Malformed(_))));
    assert!(matches!(Colour::from_str("#12"), Err(Error::Malformed(_))));
    assert!(matches!(Colour::from_str("no such colour"), Err(Error::Malformed(_))));
}

#[test]
fn colour_from_parsed_keeps_the_outcome() {
    let parsed = "#102030".parse::<css_color_parser::Color>();
    let c = Colour::from_parsed(parsed).expect("should be a colour");
    assert_eq!(rgb(c), (16, 32, 48));
    let failed = "".parse::<css_color_parser::Color>();
    assert!(matches!(Colour::from_parsed(failed), Err(Error::Malformed(_))));
}

#[test]
fn colour_set_by_key() {
    let set = palette();
    assert_eq!(rgb(set.by_key(Key::Editor)), (1, 1, 1));
    assert_eq!(rgb(set.by_key(Key::FieldEditor)), (2, 2, 2));
    assert_eq!(rgb(set.by_key(Key::Header)), (3, 3, 3));
    assert_eq!(rgb(set.by_key(Key::Name(SplitPosition::Done))), (4, 4, 4));
    assert_eq!(rgb(set.by_key(Key::Name(SplitPosition::Coming))), (5, 5, 5));
    assert_eq!(rgb(set.by_key(Key::Name(SplitPosition::Cursor))), (6, 6, 6));
    assert_eq!(rgb(set.by_key(Key::NoTime)), (7, 7, 7));
    assert_eq!(rgb(set.by_key(Key::Pace(Pace::Behind))), (8, 8, 8));
    assert_eq!(rgb(set.by_key(Key::Pace(Pace::PersonalBest))), (9, 9, 9));
    assert_eq!(rgb(set.by_key(Key::Pace(Pace::Ahead))), (10, 10, 10));
    assert_eq!(rgb(set.by_key(Key::Pace(Pace::Inconclusive))), (5, 5, 5));
    assert_eq!(rgb(set.by_pace(Pace::Ahead)), (10, 10, 10));
    assert_eq!(rgb(set.by_split_position(SplitPosition::Done)), (4, 4, 4));
}

#[test]
fn cursor_split_position() {
    let mut c = Cursor::new(4);
    assert_eq!(c.move_by(Motion::Down, 2), 2);
    assert_eq!(c.split_position(0), SplitPosition::Done);
    assert_eq!(c.split_position(1), SplitPosition::Done);
    assert_eq!(c.split_position(2), SplitPosition::Cursor);
    assert_eq!(c.split_position(3), SplitPosition::Coming);
}

#[test]
fn font_metrics() {
    assert_eq!(
        char_rect(Point { x: 3, y: -4 }),
        Rect { x: 3, y: -4, w: 7, h: 9 }
    );
    assert_eq!(font_rect(0), Rect { x: 0, y: 0, w: 7, h: 9 });
    assert_eq!(font_rect(31), Rect { x: 248, y: 0, w: 7, h: 9 });
    assert_eq!(font_rect(32), Rect { x: 0, y: 10, w: 7, h: 9 });
    assert_eq!(font_rect(b'A'), Rect { x: 8, y: 20, w: 7, h: 9 });
    assert_eq!(font_rect(255), Rect { x: 248, y: 70, w: 7, h: 9 });
    assert_eq!(offset(Point { x: 1, y: 2 }, 3, 4), Point { x: 25, y: 42 });
    assert_eq!(offset(Point { x: 1, y: 2 }, -1, -1), Point { x: -7, y: -8 });
}
