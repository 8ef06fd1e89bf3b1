//! What the user interface is drawn from.
pub mod gfx;
