//! The split editor: builds a time digit by digit, one field at a time.
use super::cursor::{Cursor, CursorView, Motion};
use super::event::{Edit, Event};
use super::mode::{EventResult, EventResultView, Next, NextView};
use crate::model::run::{pushed_to, Run};
use crate::model::time::decimal::{all_digits, decimal_value, digit_char, is_digit, unsigned_body};
use crate::model::time::error::ParseError;
use crate::model::time::field::parse_field;
use crate::model::time::position::Name;
use crate::model::time::text::lemma_parsed_field_is_bounded;
use crate::model::time::{Time, TimeView};
use vstd::prelude::*;
use vstd::string::*;

verus! {

/// How many digits the editor takes for the field at `position`.
pub open spec fn spec_max_digits(position: Name) -> nat {
    match position {
        Name::Hours => 0,
        Name::Minutes => 2,
        Name::Seconds => 2,
        Name::Milliseconds => 3,
    }
}

/// How many digits the editor takes for the field at `position`.
pub fn max_digits(position: Name) -> (n: usize)
    ensures
        n == spec_max_digits(position),
{
    match position {
        Name::Hours => 0,
        Name::Minutes => 2,
        Name::Seconds => 2,
        Name::Milliseconds => 3,
    }
}

/// What a field editor holds.
pub struct FieldView {
    /// The position being edited.
    pub position: Name,
    /// The digits entered so far.
    pub buffer: Seq<char>,
}

impl FieldView {
    /// A field editor for `position` with nothing entered.
    pub open spec fn empty(position: Name) -> FieldView {
        FieldView { position, buffer: Seq::empty() }
    }

    /// Whether the buffer holds digits only, and no more than the position
    /// takes.
    pub open spec fn wf(self) -> bool {
        &&& self.buffer.len() <= spec_max_digits(self.position)
        &&& all_digits(self.buffer)
    }

    /// Whether `digit` can be added: it is a decimal digit and the buffer
    /// is not full.
    pub open spec fn accepts(self, digit: u8) -> bool {
        digit <= 9 && self.buffer.len() < spec_max_digits(self.position)
    }

    /// The editor after an attempt to add `digit`.
    pub open spec fn add(self, digit: u8) -> FieldView {
        if self.accepts(digit) {
            FieldView { buffer: self.buffer.push(digit_char(digit as nat)), ..self }
        } else {
            self
        }
    }

    /// The editor after an attempt to remove the last digit.
    pub open spec fn remove(self) -> FieldView {
        if self.buffer.len() > 0 {
            FieldView { buffer: self.buffer.drop_last(), ..self }
        } else {
            self
        }
    }

    /// The editor after the edit `e`, and whether the edit changed it.
    pub open spec fn edit(self, e: Edit) -> (FieldView, bool) {
        match e {
            Edit::Add(digit) => (self.add(digit), self.accepts(digit)),
            Edit::Remove => (self.remove(), self.buffer.len() > 0),
        }
    }

    /// The time `time` with this editor's digits read into its field. Where
    /// the digits are not a value of the field, the time stays as it is.
    pub open spec fn commit(self, time: TimeView) -> TimeView {
        match parse_field(self.position, self.buffer) {
            Ok(val) => time.set_field(self.position, val),
            Err(_) => time,
        }
    }

    /// How the editor is shown: the digits, then `_` for each digit that
    /// can still be entered.
    pub open spec fn display(self) -> Seq<char> {
        self.buffer + Seq::new(
            (spec_max_digits(self.position) - self.buffer.len()) as nat,
            |i: int| '_',
        )
    }
}

/// A split field editor.
#[derive(Debug)]
pub struct Field {
    /// The position being edited.
    position: Name,
    /// The current string.
    string: String,
}

impl View for Field {
    type V = FieldView;

    closed spec fn view(&self) -> FieldView {
        FieldView { position: self.position, buffer: self.string@ }
    }
}

impl Field {
    /// Whether the buffer holds digits only, and no more than the position
    /// takes.
    #[verifier::type_invariant]
    pub open spec fn wf(&self) -> bool {
        self@.wf()
    }

    /// Creates a new editor for position `position`.
    pub fn new(position: Name) -> (f: Field)
        ensures
            f@ == FieldView::empty(position),
    {
        let f = Field { position, string: String::new() };
        assert(f@.buffer =~= Seq::<char>::empty());
        f
    }

    /// Gets this editor's position.
    pub fn position(&self) -> (p: Name)
        ensures
            p == self@.position,
    {
        self.position
    }

    /// The digits entered so far, which are never more than the position
    /// takes.
    pub fn digits(&self) -> (s: &str)
        ensures
            s@ == self@.buffer,
            self@.wf(),
    {
        proof {
            use_type_invariant(self);
        }
        self.string.as_str()
    }

    /// Applies the edit `e`, and says whether it changed anything.
    pub fn edit(&mut self, e: &Edit) -> (changed: bool)
        ensures
            (final(self)@, changed) == old(self)@.edit(*e),
    {
        match e {
            Edit::Add(x) => self.add(*x),
            Edit::Remove => self.remove(),
        }
    }

    /// Adds a digit to the editor. Nothing is added where the buffer is
    /// full, or where `digit` is above nine.
    pub fn add(&mut self, digit: u8) -> (added: bool)
        ensures
            added == old(self)@.accepts(digit),
            final(self)@ == old(self)@.add(digit),
            !added ==> final(self)@ == old(self)@,
    {
        proof {
            use_type_invariant(&*self);
        }
        if digit > 9 || self.max_digits() <= self.string.as_str().unicode_len() {
            false
        } else {
            let c: char = (48u8 + digit) as char;
            assert(c == digit_char(digit as nat));
            assert(is_digit(c));
            let mut string = self.string.clone();
            string.push(c);
            self.string = string;
            true
        }
    }

    /// Removes a digit from the editor, if there is one.
    pub fn remove(&mut self) -> (removed: bool)
        ensures
            removed == (old(self)@.buffer.len() > 0),
            final(self)@ == old(self)@.remove(),
            !removed ==> final(self)@ == old(self)@,
    {
        proof {
            use_type_invariant(&*self);
        }
        let mut string = self.string.clone();
        let last = string.pop();
        self.string = string;
        last.is_some()
    }

    /// Commits this editor's changes to `time`: reads the digits as the
    /// field at this editor's position. Where they cannot be read, `time`
    /// stays as it is and the error says why.
    pub fn commit(&self, time: &mut Time) -> (r: Result<(), ParseError>)
        ensures
            final(time)@ == self@.commit(old(time)@),
            match parse_field(self@.position, self@.buffer) {
                Ok(_) => r is Ok,
                Err(e) => r == Err::<(), ParseError>(e),
            },
    {
        time.set_field_str(self.position, self.string.as_str())
    }

    /// Shows the editor: the digits, then `_` for each digit that can still
    /// be entered.
    pub fn to_string(&self) -> (s: String)
        ensures
            s@ == self@.display(),
    {
        proof {
            use_type_invariant(self);
        }
        let mut out = self.string.clone();
        let width: usize = self.max_digits();
        let mut n: usize = self.string.as_str().unicode_len();
        let ghost start = n;
        while n < width
            invariant
                start <= n,
                start == self.string@.len(),
                start <= width,
                n <= width,
                out@.len() == n,
                forall|i: int| 0 <= i < start ==> out@[i] == self.string@[i],
                forall|i: int| start <= i < n ==> out@[i] == '_',
            decreases width - n,
        {
            out.push('_');
            n += 1;
        }
        assert(out@ =~= self@.display());
        out
    }

    fn max_digits(&self) -> (n: usize)
        ensures
            n == spec_max_digits(self@.position),
    {
        max_digits(self.position)
    }
}

/// What a split editor holds.
pub struct EditorView {
    /// The cursor.
    pub cur: CursorView,
    /// The time being edited.
    pub time: TimeView,
    /// The field editor, if a field is open.
    pub field: Option<FieldView>,
}

impl EditorView {
    /// Whether the parts of the editor are each in order.
    pub open spec fn wf(self) -> bool {
        &&& self.cur.pos <= self.cur.max
        &&& self.time.wf()
        &&& self.field matches Some(f) ==> f.wf()
    }

    /// The editor with the open field, if any, read into the time and
    /// closed.
    pub open spec fn commit_field(self) -> EditorView {
        match self.field {
            Some(f) => EditorView { time: f.commit(self.time), field: None, ..self },
            None => self,
        }
    }

    /// The editor after entering the field at `position`: the open field is
    /// committed first, then a fresh one is opened.
    pub open spec fn enter_field(self, position: Name) -> EditorView {
        EditorView { field: Some(FieldView::empty(position)), ..self.commit_field() }
    }

    /// The editor after an edit, and what is reported: the edit goes to the
    /// open field, and is handled if it changed the field.
    pub open spec fn edit(self, e: Edit) -> (EditorView, EventResultView) {
        match self.field {
            Some(f) => (
                EditorView { field: Some(f.edit(e).0), ..self },
                EventResultView::from_handled(f.edit(e).1),
            ),
            None => (self, EventResultView::NotHandled),
        }
    }

    /// The editor after an undo, and what is reported: an open field is
    /// dropped; with no field open, a time that is not zero is reset; with
    /// nothing left to take back, the undo is not handled.
    pub open spec fn undo(self) -> (EditorView, EventResultView) {
        if self.field is Some {
            (EditorView { field: None, ..self }, EventResultView::Handled)
        } else if self.time.is_zero() {
            (self, EventResultView::NotHandled)
        } else {
            (EditorView { time: TimeView::zero(), ..self }, EventResultView::Handled)
        }
    }

    /// The editor after a delete, and what is reported: field and time are
    /// dropped, and navigation takes over from the cursor.
    pub open spec fn delete(self) -> (EditorView, EventResultView) {
        (
            EditorView { time: TimeView::zero(), field: None, ..self },
            EventResultView::Transition(NextView::Nav(self.cur)),
        )
    }

    /// What a cursor motion leads to. The editor's own cursor stays. A move
    /// down that cannot go the whole step has run off the end of the run and
    /// ends it; any other motion hands over to navigation from where the
    /// motion leads.
    pub open spec fn move_cursor(self, motion: Motion) -> EventResultView {
        if motion == Motion::Down && self.cur.distance(motion, 1) != 1 {
            EventResultView::Transition(NextView::Inactive)
        } else {
            EventResultView::Transition(NextView::Nav(self.cur.moved(motion, 1)))
        }
    }

    /// The editor after the event `e`, and what is reported.
    pub open spec fn handle_event(self, e: Event) -> (EditorView, EventResultView) {
        match e {
            Event::Undo => self.undo(),
            Event::Delete => self.delete(),
            Event::Edit(d) => self.edit(d),
            Event::EnterField(position) => (self.enter_field(position), EventResultView::Handled),
            Event::Cursor(motion) => (self, self.move_cursor(motion)),
            _ => (self, EventResultView::NotHandled),
        }
    }

    /// The time that a commit stores: the time with the open field read
    /// into it.
    pub open spec fn committed_time(self) -> TimeView {
        self.commit_field().time
    }

    /// The editor after a commit: no field open, and the time zero.
    pub open spec fn commit(self) -> EditorView {
        EditorView { time: TimeView::zero(), field: None, ..self }
    }
}

/// A split editor.
#[derive(Debug)]
pub struct Editor {
    /// The cursor, used to track the current position for later navigation.
    pub cur: Cursor,
    /// The time being edited.
    pub time: Time,
    /// The current field editor.
    pub field: Option<Field>,
}

impl View for Editor {
    type V = EditorView;

    open spec fn view(&self) -> EditorView {
        EditorView {
            cur: self.cur@,
            time: self.time@,
            field: match self.field {
                Some(f) => Some(f@),
                None => None,
            },
        }
    }
}

impl Editor {
    /// Constructs a new editor at the given cursor, on the given field if any.
    pub fn new(cur: Cursor, field: Option<Name>) -> (e: Editor)
        ensures
            e@ == (EditorView {
                cur: cur@,
                time: TimeView::zero(),
                field: match field {
                    Some(position) => Some(FieldView::empty(position)),
                    None => None,
                },
            }),
    {
        let field = match field {
            Some(position) => Some(Field::new(position)),
            None => None,
        };
        Editor { cur, time: Time::default(), field }
    }

    /// Constructs a new editor with the given cursor and time, and with no
    /// field open.
    pub fn with_time(cur: Cursor, time: Time) -> (e: Editor)
        ensures
            e@ == (EditorView { cur: cur@, time: time@, field: None }),
    {
        Editor { cur, time, field: None }
    }

    /// Handles the event `e`. The run is left alone: only `commit` writes
    /// to it.
    pub fn handle_event(&mut self, e: &Event, run: &mut Run) -> (r: EventResult)
        ensures
            (final(self)@, r@) == old(self)@.handle_event(*e),
            final(run)@ == old(run)@,
    {
        match e {
            Event::Undo => self.undo(),
            Event::Delete => self.delete(),
            Event::Edit(d) => self.edit(d),
            Event::EnterField(f) => self.enter_field(*f),
            Event::Cursor(c) => self.move_cursor(*c),
            _ => EventResult::NotHandled,
        }
    }

    /// Commits the open field, then moves the time into `run` at the
    /// cursor's position and leaves the zero time behind.
    pub fn commit(&mut self, run: &mut Run)
        ensures
            final(self)@ == old(self)@.commit(),
            final(run)@ == pushed_to(
                old(run)@,
                old(self)@.cur.pos as int,
                old(self)@.committed_time(),
            ),
    {
        self.commit_field();
        let time = self.time;
        self.time = Time::default();
        run.push_to(self.cur.position(), time);
    }

    /// The editor's cursor.
    pub fn cursor(&self) -> (c: Option<&Cursor>)
        ensures
            c == Some(&self.cur),
    {
        Some(&self.cur)
    }

    /// The editor itself, this mode being the editor.
    pub fn editor(&self) -> (e: Option<&Editor>)
        ensures
            e == Some(self),
    {
        Some(self)
    }

    /// Enters the named field, committing any edits on any current field.
    pub fn enter_field(&mut self, field: Name) -> (r: EventResult)
        ensures
            final(self)@ == old(self)@.enter_field(field),
            r@ == EventResultView::Handled,
    {
        self.commit_field();
        self.field = Some(Field::new(field));
        EventResult::Handled
    }

    /// Hands an edit to the open field.
    pub fn edit(&mut self, e: &Edit) -> (r: EventResult)
        ensures
            (final(self)@, r@) == old(self)@.edit(*e),
    {
        match self.field.take() {
            Some(mut f) => {
                let changed = f.edit(e);
                self.field = Some(f);
                EventResult::from_handled(changed)
            },
            None => EventResult::NotHandled,
        }
    }

    /// Takes back the open field, or else the time.
    pub fn undo(&mut self) -> (r: EventResult)
        ensures
            (final(self)@, r@) == old(self)@.undo(),
    {
        if self.field.take().is_some() {
            EventResult::Handled
        } else if self.time.is_zero() {
            EventResult::NotHandled
        } else {
            self.time = Time::default();
            EventResult::Handled
        }
    }

    /// Drops field and time, and hands over to navigation.
    pub fn delete(&mut self) -> (r: EventResult)
        ensures
            (final(self)@, r@) == old(self)@.delete(),
    {
        self.field = None;
        self.time = Time::default();
        EventResult::Transition(Next::Nav(self.cur))
    }

    /// Commits the field currently being edited. Digits that are not a
    /// value of the field are dropped, and the time keeps what it had.
    pub fn commit_field(&mut self)
        ensures
            final(self)@ == old(self)@.commit_field(),
    {
        match self.field.take() {
            Some(f) => {
                let _ = f.commit(&mut self.time);
            },
            None => {},
        }
    }

    /// Performs the given cursor motion on a copy of the cursor, and says
    /// which mode takes over. The editor stays as it is.
    pub fn move_cursor(&mut self, motion: Motion) -> (r: EventResult)
        ensures
            final(self)@ == old(self)@,
            r@ == old(self)@.move_cursor(motion),
    {
        let mut cur = self.cur;
        let amt = cur.move_by(motion, 1);
        if amt != 1 && matches!(motion, Motion::Down) {
            EventResult::Transition(Next::Inactive)
        } else {
            EventResult::Transition(Next::Nav(cur))
        }
    }
}

/// A full buffer takes no further digit, and an empty one gives none up:
/// either edit is turned down and leaves the field editor as it was.
pub proof fn lemma_field_capacity(f: FieldView, digit: u8)
    requires
        f.wf(),
    ensures
        f.buffer.len() == spec_max_digits(f.position) ==> f.edit(Edit::Add(digit)) == (f, false),
        f.buffer.len() == 0 ==> f.edit(Edit::Remove) == (f, false),
        f.edit(Edit::Add(digit)).0.wf(),
        f.edit(Edit::Remove).0.wf(),
{
    if f.accepts(digit) {
        let g = f.add(digit);
        assert(is_digit(digit_char(digit as nat)));
        assert forall|i: int| 0 <= i < g.buffer.len() implies is_digit(#[trigger] g.buffer[i]) by {
            if i < f.buffer.len() {
                assert(g.buffer[i] == f.buffer[i]);
            }
        }
    }
    if f.buffer.len() > 0 {
        let g = f.remove();
        assert forall|i: int| 0 <= i < g.buffer.len() implies is_digit(#[trigger] g.buffer[i]) by {
            assert(g.buffer[i] == f.buffer[i]);
        }
    }
}

/// Digits that the editor holds are read as the number they write, so
/// committing them puts that number into the time wherever the position
/// allows it, and leaves the time alone where it does not.
pub proof fn lemma_commit_reads_digits(f: FieldView, time: TimeView)
    requires
        f.wf(),
    ensures
        decimal_value(f.buffer) <= f.position.spec_max() ==> f.commit(time) == time.set_field(
            f.position,
            decimal_value(f.buffer) as u16,
        ),
        decimal_value(f.buffer) > f.position.spec_max() ==> f.commit(time) == time,
        time.wf() ==> f.commit(time).wf(),
{
    lemma_parsed_field_is_bounded(f.position, f.buffer);
    lemma_short_decimal_value(f.buffer);
    if f.buffer.len() > 0 {
        assert(is_digit(f.buffer[0]));
        assert(unsigned_body(f.buffer) == f.buffer);
    } else {
        assert(decimal_value(f.buffer) == 0);
    }
}

/// Up to three digits write a number below one thousand.
pub proof fn lemma_short_decimal_value(s: Seq<char>)
    requires
        all_digits(s),
        s.len() <= 3,
    ensures
        decimal_value(s) < 1000,
        s.len() <= 2 ==> decimal_value(s) < 100,
        s.len() <= 1 ==> decimal_value(s) < 10,
    decreases s.len(),
{
    if s.len() > 0 {
        let p = s.drop_last();
        assert(is_digit(s.last()));
        assert forall|i: int| 0 <= i < p.len() implies is_digit(#[trigger] p[i]) by {
            assert(p[i] == s[i]);
        }
        lemma_short_decimal_value(p);
    }
}

/// Entering a field commits the field that was open before: the time then
/// holds the digits that were entered there, where they are a value of
/// that field, and the new field starts empty.
pub proof fn lemma_enter_field_commits(e: EditorView, f: FieldView, position: Name)
    requires
        e.field == Some(f),
        f.wf(),
        decimal_value(f.buffer) <= f.position.spec_max(),
    ensures
        e.enter_field(position).time == e.time.set_field(
            f.position,
            decimal_value(f.buffer) as u16,
        ),
        e.enter_field(position).time.field(f.position) == decimal_value(f.buffer),
        e.enter_field(position).field == Some(FieldView::empty(position)),
        e.enter_field(position).cur == e.cur,
{
    lemma_commit_reads_digits(f, e.time);
}

/// Undo works in two stages. With a field open, a first undo drops the
/// field and leaves the time. A second one resets the time, and is handled
/// exactly if the time was not zero already. A third one finds nothing to
/// take back: it is not handled and changes nothing.
pub proof fn lemma_undo_stages(e: EditorView)
    requires
        e.field is Some,
    ensures
        e.undo() == ((EditorView { field: None, ..e }), EventResultView::Handled),
        e.undo().0.undo() == (
            (EditorView { field: None, time: TimeView::zero(), ..e }),
            EventResultView::from_handled(!e.time.is_zero()),
        ),
        e.undo().0.undo().0.undo() == (e.undo().0.undo().0, EventResultView::NotHandled),
{
}

/// A move down from the last split ends the run; every other motion hands
/// over to navigation from where the motion leads. The editor itself is
/// not changed by either.
pub proof fn lemma_cursor_motion(e: EditorView, motion: Motion)
    requires
        e.wf(),
    ensures
        e.handle_event(Event::Cursor(motion)).0 == e,
        motion == Motion::Down && e.cur.pos == e.cur.max ==> e.handle_event(
            Event::Cursor(motion),
        ).1 == EventResultView::Transition(NextView::Inactive),
        !(motion == Motion::Down && e.cur.pos == e.cur.max) ==> e.handle_event(
            Event::Cursor(motion),
        ).1 == EventResultView::Transition(NextView::Nav(e.cur.moved(motion, 1))),
        e.cur.moved(motion, 1).pos <= e.cur.max,
        e.cur.moved(motion, 1).max == e.cur.max,
{
}

/// Whatever the event, an editor whose parts are in order stays so: the
/// time keeps each field within its bound, and the buffer of the open field
/// never outgrows its position.
pub proof fn lemma_handle_event_keeps_wf(e: EditorView, event: Event)
    requires
        e.wf(),
    ensures
        e.handle_event(event).0.wf(),
{
    match event {
        Event::Edit(d) => {
            if let Some(f) = e.field {
                match d {
                    Edit::Add(digit) => lemma_field_capacity(f, digit),
                    Edit::Remove => lemma_field_capacity(f, 0),
                }
            }
        },
        Event::EnterField(position) => {
            if let Some(f) = e.field {
                lemma_commit_reads_digits(f, e.time);
            }
            assert(FieldView::empty(position).wf());
        },
        _ => {},
    }
}

/// Events that are not the editor's are reported as not handled, and
/// change nothing.
pub proof fn lemma_other_events_not_handled(e: EditorView, event: Event)
    requires
        event == Event::Commit || event == Event::NewRun || event == Event::Quit,
    ensures
        e.handle_event(event) == (e, EventResultView::NotHandled),
{
}

} // verus!
