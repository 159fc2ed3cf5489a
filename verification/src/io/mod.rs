//! The records a composition is described by, and its score encoding.

pub mod deseralizer;
pub mod exporter;
