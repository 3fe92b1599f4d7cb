//! Parameters and results of the tools.

use vstd::prelude::*;

verus! {

/// Parameters for creating a new sandbox.
#[derive(Debug, Default, Clone)]
pub struct CreateSandboxParams {
    /// Memory in MiB (default 256).
    pub memory_mib: Option<u32>,
    /// vCPU count (default 2).
    pub vcpu_count: Option<u8>,
}

/// Result of creating a sandbox.
#[derive(Debug, Clone)]
pub struct CreateSandboxResult {
    /// Unique identifier of the sandbox.
    pub sandbox_id: String,
}

/// Parameters for destroying a sandbox.
#[derive(Debug, Clone)]
pub struct DestroySandboxParams {
    /// ID of the sandbox to destroy.
    pub sandbox_id: String,
}

/// Result of destroying a sandbox.
#[derive(Debug, Clone)]
pub struct DestroySandboxResult {
    /// Whether the operation succeeded.
    pub success: bool,
}

/// Result of listing sandboxes.
#[derive(Debug, Clone)]
pub struct ListSandboxesResult {
    /// The live sandboxes.
    pub sandboxes: Vec<SandboxInfo>,
}

/// Information about a sandbox.
#[derive(Debug, Clone)]
pub struct SandboxInfo {
    /// Unique identifier of the sandbox.
    pub sandbox_id: String,
    /// Current state of the sandbox.
    pub state: String,
    /// When the sandbox was created (ISO 8601).
    pub created_at: String,
}

/// Parameters for executing code.
#[derive(Debug, Clone)]
pub struct ExecuteCodeParams {
    /// ID of the sandbox to execute in.
    pub sandbox_id: String,
    /// Language to execute (python, python3, node, javascript, bash, sh).
    pub language: String,
    /// Code to execute.
    pub code: String,
}

/// Parameters for running a shell command.
#[derive(Debug, Clone)]
pub struct RunCommandParams {
    /// ID of the sandbox to execute in.
    pub sandbox_id: String,
    /// Shell command to execute.
    pub command: String,
}

/// Result of code or command execution.
#[derive(Debug, Clone)]
pub struct ExecResponse {
    /// Exit code of the command (0 for success).
    pub exit_code: i32,
    /// Standard output.
    pub stdout: String,
    /// Standard error.
    pub stderr: String,
}

/// Parameters for reading a file.
#[derive(Debug, Clone)]
pub struct ReadFileParams {
    /// ID of the sandbox.
    pub sandbox_id: String,
    /// Absolute path to the file.
    pub path: String,
}

/// Result of reading a file.
#[derive(Debug, Clone)]
pub struct ReadFileResult {
    /// File contents.
    pub content: String,
}

/// Parameters for writing a file.
#[derive(Debug, Clone)]
pub struct WriteFileParams {
    /// ID of the sandbox.
    pub sandbox_id: String,
    /// Absolute path to the file.
    pub path: String,
    /// Content to write.
    pub content: String,
}

/// Result of writing a file.
#[derive(Debug, Clone)]
pub struct WriteFileResult {
    /// Whether the operation succeeded.
    pub success: bool,
}

/// Parameters for listing a directory.
#[derive(Debug, Clone)]
pub struct ListDirectoryParams {
    /// ID of the sandbox.
    pub sandbox_id: String,
    /// Absolute path to the directory.
    pub path: String,
}

/// Result of listing a directory.
#[derive(Debug, Clone)]
pub struct ListDirectoryResult {
    /// The entries of the directory.
    pub entries: Vec<FileEntryResponse>,
}

/// Information about a file or directory entry.
#[derive(Debug, Clone)]
pub struct FileEntryResponse {
    /// File or directory name.
    pub name: String,
    /// Whether this is a directory.
    pub is_dir: bool,
    /// File size in bytes (0 for directories).
    pub size: u64,
}

} // verus!
