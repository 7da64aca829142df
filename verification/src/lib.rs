//! Verified core of a bulk music-library downloader.
//!
//! The library holds the catalog data model, the filename and directory
//! layout rules, the info-sidecar renderer, the response-envelope logic,
//! and the planning/state machinery of the download pipeline: the
//! skip-if-complete asset protocol and the bounded concurrent fan-out.
//! I/O (HTTP, the filesystem, tagging, progress bars) lives outside, in
//! thin shells that execute the plans this library computes.

pub mod error;
pub mod info;
pub mod layout;
pub mod models;
pub mod pipeline;
pub mod text;
pub mod utils;
