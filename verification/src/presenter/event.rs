//! The events that the presenter's modes are asked to handle.
use super::cursor::Motion;
use crate::model::time::position::Name;
use vstd::prelude::*;

verus! {

/// A change to the field being edited.
#[derive(Copy, Clone, Debug, PartialEq, Eq, Structural)]
pub enum Edit {
    /// Add the given digit.
    Add(u8),
    /// Remove the last digit.
    Remove,
}

/// An event.
#[derive(Copy, Clone, Debug, PartialEq, Eq, Structural)]
pub enum Event {
    /// Move the cursor.
    Cursor(Motion),
    /// Change the field being edited.
    Edit(Edit),
    /// Start editing the field at a position.
    EnterField(Name),
    /// Take back the last thing entered.
    Undo,
    /// Throw away what is being edited.
    Delete,
    /// Store what is being edited.
    Commit,
    /// Start a new run.
    NewRun,
    /// Leave the program.
    Quit,
}

} // verus!
