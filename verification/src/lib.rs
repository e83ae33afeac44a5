//! Batch orchestration for a perceptual image-quality metric.
//!
//! The numerically heavy work (image decoding, colour conversion and the
//! perceptual metric itself) is done by outside libraries and is out of
//! scope here; this crate holds the verified core around it: discovering
//! matching file pairs, collecting per-pair results that may arrive in any
//! order, restoring the discovery order, computing summary statistics over
//! fixed-point scores, and rendering the textual report.

pub mod collector;
pub mod converters;
pub mod enums;
pub mod order;
pub mod pairs;
pub mod report;
pub mod stats;
pub mod structs;
pub mod text;
