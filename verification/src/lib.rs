//! Collects the paths under a directory, with the text of the files that
//! qualify, and renders the collection as a plain or a structured listing.
//!
//! The library holds every decision of a run: which walk filters apply, which
//! files are read, what counts as binary, and how the listing is laid out.
//! Walking the tree and reading files is left to the caller, who feeds the
//! [`collector::Collector`] one event at a time.

pub mod binary;
pub mod extension;
pub mod options;
pub mod report;
pub mod collector;
pub mod format;
pub mod laws;
