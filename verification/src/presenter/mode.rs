//! What a mode reports after an event.
use super::cursor::{Cursor, CursorView};
use vstd::prelude::*;

verus! {

/// The mode that takes over from the one that handled an event.
#[derive(Copy, Clone, Debug)]
pub enum Next {
    /// No run is in progress.
    Inactive,
    /// Navigation between splits, from the given cursor.
    Nav(Cursor),
}

/// The outcome of handing an event to a mode.
#[derive(Copy, Clone, Debug)]
pub enum EventResult {
    /// The event was handled, and the mode stays.
    Handled,
    /// The event was not for this mode; nothing was changed.
    NotHandled,
    /// The event was handled, and another mode takes over.
    Transition(Next),
}

/// `Next` as a value.
pub enum NextView {
    /// No run is in progress.
    Inactive,
    /// Navigation between splits, from the given cursor.
    Nav(CursorView),
}

/// `EventResult` as a value.
pub enum EventResultView {
    /// The event was handled, and the mode stays.
    Handled,
    /// The event was not for this mode; nothing was changed.
    NotHandled,
    /// The event was handled, and another mode takes over.
    Transition(NextView),
}

impl View for Next {
    type V = NextView;

    open spec fn view(&self) -> NextView {
        match self {
            Next::Inactive => NextView::Inactive,
            Next::Nav(c) => NextView::Nav(c@),
        }
    }
}

impl View for EventResult {
    type V = EventResultView;

    open spec fn view(&self) -> EventResultView {
        match self {
            EventResult::Handled => EventResultView::Handled,
            EventResult::NotHandled => EventResultView::NotHandled,
            EventResult::Transition(n) => EventResultView::Transition(n@),
        }
    }
}

impl EventResultView {
    /// `Handled` if something was done, `NotHandled` if not.
    pub open spec fn from_handled(handled: bool) -> EventResultView {
        if handled {
            EventResultView::Handled
        } else {
            EventResultView::NotHandled
        }
    }
}

impl EventResult {
    /// `Handled` if something was done, `NotHandled` if not.
    pub fn from_handled(handled: bool) -> (r: EventResult)
        ensures
            r@ == EventResultView::from_handled(handled),
    {
        if handled {
            EventResult::Handled
        } else {
            EventResult::NotHandled
        }
    }
}

} // verus!
