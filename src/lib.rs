//! Rule-driven extraction of canonical identifiers from two text channels,
//! and the comparison of what was extracted.
pub mod normalize;
pub mod pattern;
pub mod engine;
pub mod config;
pub mod report;
