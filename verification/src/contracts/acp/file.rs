use vstd::prelude::*;

verus! {

/// Carries the `fs/read_text_file` parameters an agent sends to the client.
#[derive(Clone, Debug, PartialEq, Eq)]
pub struct ReadTextFileRequest {
    pub session_id: String,
    pub path: String,
    /// Starts the returned slice at this 1-based line instead of the first line.
    pub line: Option<u32>,
    /// Limits the returned slice to this many lines.
    pub limit: Option<u32>,
}

/// Returns the requested text file contents to the calling agent.
#[derive(Clone, Debug, PartialEq, Eq)]
pub struct ReadTextFileResponse {
    pub content: String,
}

/// Carries the `fs/write_text_file` parameters an agent sends to the client.
#[derive(Clone, Debug, PartialEq, Eq)]
pub struct WriteTextFileRequest {
    pub session_id: String,
    pub path: String,
    pub content: String,
}

/// Acknowledges a completed text file write, which carries no result fields.
#[derive(Clone, Debug, Default, PartialEq, Eq)]
pub struct WriteTextFileResponse {}

} // verus!
