//! Pitch theory and the timeline model.

pub mod chords;
pub mod composition;
pub mod notes;
