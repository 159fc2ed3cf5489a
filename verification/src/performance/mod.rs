//! Playback of a composition in step with a clock.

pub mod performance_engine;
