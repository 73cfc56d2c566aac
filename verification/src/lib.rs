//! A small logging support library: rotation and retention policy for a
//! directory of log files.
//!
//! The two components are a policy parser, which turns human-readable size
//! and duration thresholds into bytes and seconds, and a retention sweeper,
//! which decides for each directory entry whether it must be archived,
//! deleted, or kept, and builds the compressed archive that replaces an
//! oversized plain-text log.

pub mod archive;
pub mod config;
pub mod parse;
pub mod sweep;
pub mod text;
