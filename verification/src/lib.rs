//! Inference and application of textual date/datetime formats.
//!
//! A small catalog of strftime-style templates is grouped into four pattern
//! families. `infer::compile_single` classifies one sample string into a
//! family; a `infer::DatetimeInfer` seeded with that family then converts a
//! whole column of optional strings into day counts or microsecond
//! timestamps, caching the most recently successful template.

pub mod infer;
pub mod laws;
pub mod patterns;
pub mod transform;
