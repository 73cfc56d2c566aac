//! Configuration step of initialization: both threshold strings are parsed
//! before any enforcement runs, and a malformed one aborts initialization
//! with an error that echoes the offending input.

use vstd::prelude::*;
use vstd::string::StringExecFns;
use crate::parse::{parse_duration, parse_file_size, spec_parse_duration, spec_parse_size};

verus! {

/// The two numeric thresholds a sweep enforces, derived once from the
/// configuration strings and immutable afterward.
#[derive(Clone, Copy, Debug, PartialEq, Eq, Structural)]
pub struct Thresholds {
    /// A plain-text log of at least this many bytes is archived.
    pub size_bytes: u64,
    /// An archive strictly older than this many seconds is deleted.
    pub age_secs: u64,
}

/// Why initialization failed. Each variant carries the offending input or
/// the filesystem detail the caller saw.
#[derive(Debug)]
pub enum InitError {
    /// The size threshold string is malformed; holds that string.
    InvalidSize(String),
    /// The duration threshold string is malformed; holds that string.
    InvalidDuration(String),
    /// The log directory could not be created; holds the path and cause.
    DirectoryCreate(String),
    /// The log directory could not be read; holds the path and cause.
    DirectoryRead(String),
}

impl InitError {
    /// A human-readable message naming the step that failed and why.
    pub fn message(&self) -> (r: String)
        ensures
            self matches InitError::InvalidSize(t) ==> r@ == "Invalid file_size : "@ + t@,
            self matches InitError::InvalidDuration(t) ==> r@ == "Invalid duration : "@ + t@,
            self matches InitError::DirectoryCreate(t) ==> r@
                == "Failed when try to create the folder : "@ + t@,
            self matches InitError::DirectoryRead(t) ==> r@
                == "Failed when try to read the directory : "@ + t@,
    {
        match self {
            InitError::InvalidSize(t) => "Invalid file_size : ".to_owned().concat(t.as_str()),
            InitError::InvalidDuration(t) => "Invalid duration : ".to_owned().concat(t.as_str()),
            InitError::DirectoryCreate(t) => "Failed when try to create the folder : ".to_owned()
                .concat(t.as_str()),
            InitError::DirectoryRead(t) => "Failed when try to read the directory : ".to_owned()
                .concat(t.as_str()),
        }
    }
}

/// Parses the two configuration strings into the thresholds a sweep
/// enforces. Succeeds exactly when both strings are well formed; a malformed
/// size threshold is reported first, echoing the offending input.
pub fn parse_config(file_size: &str, duration: &str) -> (r: Result<Thresholds, InitError>)
    ensures
        r is Ok <==> spec_parse_size(file_size@) is Some && spec_parse_duration(duration@)
            is Some,
        r matches Ok(t) ==> spec_parse_size(file_size@) == Some(t.size_bytes)
            && spec_parse_duration(duration@) == Some(t.age_secs),
        spec_parse_size(file_size@) is None ==> (r matches Err(e) && e matches
            InitError::InvalidSize(t) && t@ == file_size@),
        spec_parse_size(file_size@) is Some && spec_parse_duration(duration@) is None ==> (
        r matches Err(e) && e matches InitError::InvalidDuration(t) && t@ == duration@),
{
    let size_bytes = match parse_file_size(file_size) {
        Some(v) => v,
        None => {
            return Err(InitError::InvalidSize(file_size.to_owned()));
        },
    };
    let age_secs = match parse_duration(duration) {
        Some(v) => v,
        None => {
            return Err(InitError::InvalidDuration(duration.to_owned()));
        },
    };
    Ok(Thresholds { size_bytes, age_secs })
}

} // verus!
