//! Extraction of `url:login:password` records from the lines of plain-text
//! logs, the grouping of input files into batches, and the placing of the
//! records into size-capped output files.

pub mod batch;
pub mod extract;
pub mod pattern;
pub mod rotate;
pub mod schedule;
