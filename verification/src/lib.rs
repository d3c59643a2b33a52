//! Verified core of a short-video link downloader.
//!
//! The library covers the logic of the pipeline: parsing a source link into
//! an item descriptor, interpreting the upstream resolver's responses and
//! classifying their failures, planning the files a download writes, and the
//! retry / concurrency policy of the orchestrator. Network and file I/O live
//! outside the library and hand it plain values.

pub mod api;
pub mod downloader;
pub mod orchestrator;
pub mod parser;
pub mod strutil;
pub mod types;
