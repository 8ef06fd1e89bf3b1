//! Bounded time fields with carry-correct arithmetic, and the split editor
//! that builds a time from keystrokes.
pub mod model;
pub mod presenter;
pub mod view;
