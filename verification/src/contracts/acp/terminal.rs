use vstd::prelude::*;

verus! {

/// Carries one environment variable applied to a terminal command.
#[derive(Clone, Debug, PartialEq, Eq)]
pub struct EnvVariable {
    pub name: String,
    pub value: String,
}

/// Describes how a terminal command finished once it is no longer running.
#[derive(Clone, Debug, PartialEq, Eq)]
pub struct TerminalExitStatus {
    /// Reports the process exit code, absent when a signal terminated the process.
    pub exit_code: Option<u32>,
    /// Names the signal that terminated the process, absent on a normal exit.
    pub signal: Option<String>,
}

/// Requests a new terminal running one command for the session.
#[derive(Clone, Debug, PartialEq, Eq)]
pub struct CreateTerminalRequest {
    pub session_id: String,
    pub command: String,
    /// Passes command arguments verbatim without shell interpretation.
    pub args: Vec<String>,
    /// Adds environment variables on top of the client environment.
    pub env: Vec<EnvVariable>,
    /// Runs the command in this absolute directory instead of the client default.
    pub cwd: Option<String>,
    /// Retains at most this many output bytes, truncating older output first.
    pub output_byte_limit: Option<u64>,
}

/// Returns the identifier of the terminal that was created.
#[derive(Clone, Debug, PartialEq, Eq)]
pub struct CreateTerminalResponse {
    pub terminal_id: String,
}

/// Requests the output captured so far without waiting for the command to finish.
#[derive(Clone, Debug, PartialEq, Eq)]
pub struct TerminalOutputRequest {
    pub session_id: String,
    pub terminal_id: String,
}

/// Returns the captured terminal output and the command status at capture time.
#[derive(Clone, Debug, PartialEq, Eq)]
pub struct TerminalOutputResponse {
    pub output: String,
    /// Reports whether output was dropped to stay within the byte limit.
    pub truncated: bool,
    /// Describes the exit, absent while the command is still running.
    pub exit_status: Option<TerminalExitStatus>,
}

/// Requests a wait until the terminal command finishes.
#[derive(Clone, Debug, PartialEq, Eq)]
pub struct WaitForTerminalExitRequest {
    pub session_id: String,
    pub terminal_id: String,
}

/// Returns how the terminal command finished.
#[derive(Clone, Debug, PartialEq, Eq)]
pub struct WaitForTerminalExitResponse {
    /// Reports the process exit code, absent when a signal terminated the process.
    pub exit_code: Option<u32>,
    /// Names the signal that terminated the process, absent on a normal exit.
    pub signal: Option<String>,
}

/// Requests termination of the running command while keeping the terminal readable.
#[derive(Clone, Debug, PartialEq, Eq)]
pub struct KillTerminalRequest {
    pub session_id: String,
    pub terminal_id: String,
}

/// Acknowledges a completed kill, which carries no result fields.
#[derive(Clone, Debug, Default, PartialEq, Eq)]
pub struct KillTerminalResponse {}

/// Requests release of the terminal and every resource it still holds.
#[derive(Clone, Debug, PartialEq, Eq)]
pub struct ReleaseTerminalRequest {
    pub session_id: String,
    pub terminal_id: String,
}

/// Acknowledges a completed release, which carries no result fields.
#[derive(Clone, Debug, Default, PartialEq, Eq)]
pub struct ReleaseTerminalResponse {}

} // verus!
