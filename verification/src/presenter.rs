//! The interactive side: the cursor over the splits and the split editor.
pub mod cursor;
pub mod event;
pub mod mode;
pub mod editor;
