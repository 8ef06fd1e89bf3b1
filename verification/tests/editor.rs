use zombiesplit::model::run::Run;
use zombiesplit::model::time::field::Field as TimeField;
use zombiesplit::model::time::position::Name;
use zombiesplit::model::time::Time;
use zombiesplit::presenter::cursor::{Cursor, Motion};
use zombiesplit::presenter::editor::{max_digits, Editor, Field};
use zombiesplit::presenter::event::{Edit, Event};
use zombiesplit::presenter::mode::{EventResult, Next};

fn secs(n: u32) -> Time {
    Time {
        secs: TimeField::try_from(n).expect("seconds in range"),
        ..Time::default()
    }
}

fn fields(t: &Time) -> (u16, u16, u16, u16) {
    (
        u16::from(t.hours),
        u16::from(t.mins),
        u16::from(t.secs),
        u16::from(t.micros),
    )
}

fn is_handled(r: &EventResult) -> bool {
    matches!(r, EventResult::Handled)
}

fn is_not_handled(r: &EventResult) -> bool {
    matches!(r, EventResult::NotHandled)
}

fn nav_position(r: &EventResult) -> Option<usize> {
    match r {
        EventResult::Transition(Next::Nav(c)) => Some(c.position()),
        _ => None,
    }
}

#[test]
fn cursor_moves_within_bounds() {
    let mut c = Cursor::new(2);
    assert_eq!(c.position(), 0);
    assert_eq!(c.max(), 2);
    assert_eq!(c.move_by(Motion::Up, 1), 0);
    assert_eq!(c.position(), 0);
    assert_eq!(c.move_by(Motion::Down, 1), 1);
    assert_eq!(c.position(), 1);
    assert_eq!(c.move_by(Motion::Down, 5), 1);
    assert_eq!(c.position(), 2);
    assert_eq!(c.move_by(Motion::Down, usize::MAX), 0);
    assert_eq!(c.move_by(Motion::Up, 2), 2);
    assert_eq!(c.position(), 0);
}

#[test]
fn field_editor_capacity() {
    assert_eq!(max_digits(Name::Hours), 0);
    assert_eq!(max_digits(Name::Minutes), 2);
    assert_eq!(max_digits(Name::Seconds), 2);
    assert_eq!(max_digits(Name::Milliseconds), 3);

    let mut f = Field::new(Name::Seconds);
    assert_eq!(f.position(), Name::Seconds);
    assert!(!f.remove(), "nothing to remove yet");
    assert!(f.add(4));
    assert!(f.add(2));
    assert_eq!(f.digits(), "42");
    assert!(!f.add(7), "the buffer is full");
    assert_eq!(f.digits(), "42");
    assert!(f.remove());
    assert_eq!(f.digits(), "4");
    assert!(f.remove());
    assert!(!f.remove());
    assert_eq!(f.digits(), "");

    let mut h = Field::new(Name::Hours);
    assert!(!h.add(1), "hours take no digits");
    assert_eq!(h.digits(), "");

    let mut ms = Field::new(Name::Milliseconds);
    assert!(ms.add(0) && ms.add(0) && ms.add(9));
    assert!(!ms.add(1));
    assert_eq!(ms.digits(), "009");
}

#[test]
fn field_editor_takes_digits_only() {
    let mut f = Field::new(Name::Milliseconds);
    assert!(!f.add(10));
    assert!(!f.add(255));
    assert_eq!(f.digits(), "");
    assert!(f.add(9));
    assert_eq!(f.digits(), "9");
}

#[test]
fn field_editor_edit() {
    let mut f = Field::new(Name::Minutes);
    assert!(f.edit(&Edit::Add(5)));
    assert!(f.edit(&Edit::Add(9)));
    assert!(!f.edit(&Edit::Add(0)));
    assert!(f.edit(&Edit::Remove));
    assert_eq!(f.digits(), "5");
}

#[test]
fn field_editor_to_string() {
    let mut f = Field::new(Name::Milliseconds);
    assert_eq!(f.to_string(), "___");
    assert!(f.add(1));
    assert_eq!(f.to_string(), "1__");
    assert!(f.add(2));
    assert!(f.add(3));
    assert_eq!(f.to_string(), "123");
    assert_eq!(Field::new(Name::Hours).to_string(), "");
    assert_eq!(Field::new(Name::Seconds).to_string(), "__");
}

#[test]
fn field_editor_commit() {
    let mut t = Time::default();
    let mut f = Field::new(Name::Seconds);
    assert!(f.add(5));
    assert!(f.add(9));
    assert!(f.commit(&mut t).is_ok());
    assert_eq!(fields(&t), (0, 0, 59, 0));

    let mut g = Field::new(Name::Minutes);
    assert!(g.add(6));
    assert!(g.add(0));
    assert!(g.commit(&mut t).is_err());
    assert_eq!(fields(&t), (0, 0, 59, 0));

    let empty = Field::new(Name::Seconds);
    assert!(empty.commit(&mut t).is_ok());
    assert_eq!(fields(&t), (0, 0, 0, 0));
}

#[test]
fn editor_new_and_with_time() {
    let e = Editor::new(Cursor::new(3), Some(Name::Minutes));
    assert!(e.time.is_zero());
    assert_eq!(e.field.as_ref().map(Field::position), Some(Name::Minutes));
    assert_eq!(e.cur.position(), 0);
    let e = Editor::new(Cursor::new(3), None);
    assert!(e.field.is_none());
    let e = Editor::with_time(Cursor::new(3), secs(7));
    assert!(e.field.is_none());
    assert_eq!(fields(&e.time), (0, 0, 7, 0));
    assert_eq!(e.cursor().map(Cursor::position), Some(0));
    assert!(e.editor().is_some());
}

#[test]
fn editor_undo_is_two_staged() {
    let mut run = Run::new(1);
    let mut e = Editor::with_time(Cursor::new(0), secs(12));
    assert!(is_handled(&e.handle_event(&Event::EnterField(Name::Minutes), &mut run)));
    assert!(is_handled(&e.handle_event(&Event::Edit(Edit::Add(3)), &mut run)));

    assert!(is_handled(&e.handle_event(&Event::Undo, &mut run)));
    assert!(e.field.is_none());
    assert_eq!(fields(&e.time), (0, 0, 12, 0));

    assert!(is_handled(&e.handle_event(&Event::Undo, &mut run)));
    assert!(e.field.is_none());
    assert!(e.time.is_zero());

    assert!(is_not_handled(&e.handle_event(&Event::Undo, &mut run)));
    assert!(e.field.is_none());
    assert!(e.time.is_zero());
    assert_eq!(run.num_times(0), 0);
}

#[test]
fn editor_enter_field_commits_the_previous_field() {
    let mut run = Run::new(1);
    let mut e = Editor::new(Cursor::new(0), Some(Name::Minutes));
    assert!(is_handled(&e.handle_event(&Event::Edit(Edit::Add(1)), &mut run)));
    assert!(is_handled(&e.handle_event(&Event::Edit(Edit::Add(2)), &mut run)));
    assert_eq!(fields(&e.time), (0, 0, 0, 0));
    assert!(is_handled(&e.enter_field(Name::Seconds)));
    assert_eq!(fields(&e.time), (0, 12, 0, 0));
    assert_eq!(e.field.as_ref().map(Field::position), Some(Name::Seconds));
    assert_eq!(e.field.as_ref().map(Field::digits), Some(""));
    assert!(is_handled(&e.handle_event(&Event::Edit(Edit::Add(7)), &mut run)));
    assert!(is_handled(&e.handle_event(&Event::EnterField(Name::Milliseconds), &mut run)));
    assert_eq!(fields(&e.time), (0, 12, 7, 0));
}

#[test]
fn editor_drops_digits_that_do_not_fit() {
    let mut e = Editor::with_time(Cursor::new(0), secs(5));
    assert!(is_handled(&e.enter_field(Name::Seconds)));
    assert!(is_handled(&e.edit(&Edit::Add(9))));
    assert!(is_handled(&e.edit(&Edit::Add(9))));
    e.commit_field();
    assert!(e.field.is_none());
    assert_eq!(fields(&e.time), (0, 0, 5, 0));
}

#[test]
fn editor_edit_needs_an_open_field() {
    let mut run = Run::new(1);
    let mut e = Editor::new(Cursor::new(0), None);
    assert!(is_not_handled(&e.handle_event(&Event::Edit(Edit::Add(1)), &mut run)));
    assert!(is_not_handled(&e.handle_event(&Event::Edit(Edit::Remove), &mut run)));
    assert!(is_handled(&e.handle_event(&Event::EnterField(Name::Seconds), &mut run)));
    assert!(is_not_handled(&e.handle_event(&Event::Edit(Edit::Remove), &mut run)));
    assert!(is_handled(&e.handle_event(&Event::Edit(Edit::Add(1)), &mut run)));
    assert!(is_handled(&e.handle_event(&Event::Edit(Edit::Add(1)), &mut run)));
    assert!(is_not_handled(&e.handle_event(&Event::Edit(Edit::Add(1)), &mut run)));
    assert!(is_handled(&e.handle_event(&Event::Edit(Edit::Remove), &mut run)));
}

#[test]
fn editor_delete_hands_over_to_navigation() {
    let mut run = Run::new(3);
    let mut cur = Cursor::new(2);
    assert_eq!(cur.move_by(Motion::Down, 1), 1);
    let mut e = Editor::with_time(cur, secs(9));
    assert!(is_handled(&e.enter_field(Name::Minutes)));
    let r = e.handle_event(&Event::Delete, &mut run);
    assert_eq!(nav_position(&r), Some(1));
    assert!(e.field.is_none());
    assert!(e.time.is_zero());
}

#[test]
fn editor_cursor_down_off_the_end_goes_inactive() {
    let mut run = Run::new(2);
    let mut cur = Cursor::new(1);
    assert_eq!(cur.move_by(Motion::Down, 1), 1);
    let mut e = Editor::with_time(cur, secs(9));
    let r = e.handle_event(&Event::Cursor(Motion::Down), &mut run);
    assert!(matches!(r, EventResult::Transition(Next::Inactive)));
    assert_eq!(e.cur.position(), 1);
    assert_eq!(fields(&e.time), (0, 0, 9, 0));
}

#[test]
fn editor_other_cursor_motions_go_to_navigation() {
    let mut run = Run::new(3);
    let mut e = Editor::new(Cursor::new(2), None);
    let r = e.handle_event(&Event::Cursor(Motion::Down), &mut run);
    assert_eq!(nav_position(&r), Some(1));
    assert_eq!(e.cur.position(), 0, "the editor keeps its own cursor");
    let r = e.move_cursor(Motion::Up);
    assert_eq!(nav_position(&r), Some(0));

    let mut cur = Cursor::new(2);
    assert_eq!(cur.move_by(Motion::Down, 2), 2);
    let mut e = Editor::new(cur, None);
    let r = e.move_cursor(Motion::Up);
    assert_eq!(nav_position(&r), Some(1));
}

#[test]
fn editor_leaves_other_events_alone() {
    let mut run = Run::new(1);
    let mut e = Editor::with_time(Cursor::new(0), secs(3));
    assert!(is_not_handled(&e.handle_event(&Event::Commit, &mut run)));
    assert!(is_not_handled(&e.handle_event(&Event::NewRun, &mut run)));
    assert!(is_not_handled(&e.handle_event(&Event::Quit, &mut run)));
    assert_eq!(fields(&e.time), (0, 0, 3, 0));
    assert_eq!(run.num_times(0), 0);
}

#[test]
fn editor_commit_pushes_the_time_to_the_run() {
    let mut run = Run::new(3);
    let mut cur = Cursor::new(2);
    assert_eq!(cur.move_by(Motion::Down, 2), 2);
    let mut e = Editor::new(cur, Some(Name::Seconds));
    assert!(is_handled(&e.edit(&Edit::Add(4))));
    assert!(is_handled(&e.edit(&Edit::Add(2))));
    assert!(is_handled(&e.enter_field(Name::Milliseconds)));
    assert!(is_handled(&e.edit(&Edit::Add(5))));
    e.commit(&mut run);
    assert!(e.field.is_none());
    assert!(e.time.is_zero());
    assert_eq!(run.num_splits(), 3);
    assert_eq!(run.num_times(0), 0);
    assert_eq!(run.num_times(1), 0);
    assert_eq!(run.num_times(2), 1);
    let stored = run.time_at(2, 0).expect("the time was pushed");
    assert_eq!(fields(&stored), (0, 0, 42, 5));
    assert!(run.time_at(2, 1).is_none());
}

#[test]
fn run_push_to() {
    let mut run = Run::new(2);
    run.push_to(1, secs(1));
    run.push_to(1, secs(2));
    run.push_to(5, secs(3));
    assert_eq!(run.num_times(0), 0);
    assert_eq!(run.num_times(1), 2);
    assert_eq!(run.num_times(5), 0);
    assert_eq!(run.time_at(1, 0), Some(secs(1)));
    assert_eq!(run.time_at(1, 1), Some(secs(2)));
    assert_eq!(run.time_at(0, 0), None);
}

#[test]
fn event_result_from_handled() {
    assert!(is_handled(&EventResult::from_handled(true)));
    assert!(is_not_handled(&EventResult::from_handled(false)));
}

#[test]
fn cursor_at_the_limits() {
    let mut c = Cursor::new(usize::MAX);
    assert_eq!(c.move_by(Motion::Down, usize::MAX), usize::MAX);
    assert_eq!(c.position(), usize::MAX);
    assert_eq!(c.move_by(Motion::Down, 1), 0);
    assert_eq!(c.move_by(Motion::Up, usize::MAX), usize::MAX);
    assert_eq!(c.position(), 0);
    let mut single = Cursor::new(0);
    assert_eq!(single.move_by(Motion::Down, 1), 0);
    assert_eq!(single.move_by(Motion::Up, 1), 0);
}

#[test]
fn run_without_splits_takes_nothing() {
    let mut run = Run::new(0);
    run.push_to(0, secs(1));
    assert_eq!(run.num_splits(), 0);
    assert_eq!(run.num_times(0), 0);
    assert!(run.time_at(0, 0).is_none());
}
