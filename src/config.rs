//! The startup configuration, parsed once and read-only afterwards.
use vstd::prelude::*;

verus! {

#[verifier::external_type_specification]
#[verifier::external_body]
pub struct ExPathBuf(std::path::PathBuf);

/// Rendering style of the diagnostic records.
#[derive(Clone, Copy, Debug, PartialEq, Eq, Structural)]
pub enum LogFormat {
    /// The structured default rendering.
    Default,
    /// One short line per record.
    Compact,
    /// Multi-line, human-oriented rendering.
    Pretty,
    /// One JSON object per record.
    Json,
}

/// Settings that select how the process logs.
#[derive(Debug)]
pub struct LogConfig {
    /// A filter expression; when absent or invalid the default filter is used.
    pub log_filter: Option<String>,
    /// A file to append records to; when absent records go to standard error.
    pub log_file: Option<std::path::PathBuf>,
    /// The rendering style.
    pub log_format: LogFormat,
}

} // verus!
