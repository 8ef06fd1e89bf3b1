//! Graphics: colours and font metrics.
pub mod colour;
pub mod metrics;
