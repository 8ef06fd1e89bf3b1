//! The data model: times and the run they are recorded into.
pub mod pace;
pub mod run;
pub mod time;
