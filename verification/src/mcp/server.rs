//! The tools of the server: their names, the checks on what they are
//! handed, and the words of what went wrong.

use crate::config::{SandboxConfig, SandboxConfigView};
use crate::error::CoreError;
use crate::ids::parsed_uuid;
use crate::mcp::config::{MAX_COMMAND_LENGTH, MAX_INPUT_SIZE_BYTES};
use crate::mcp::types::{
    CreateSandboxParams, ExecResponse, ExecuteCodeParams, FileEntryResponse, RunCommandParams,
    WriteFileParams,
};
use crate::protocol::{ExecResult, FileEntry};
use crate::sandbox::SandboxId;
use crate::text::{decimal, decimal_u64, same_text};
use vstd::prelude::*;
use vstd::utf8::encode_utf8;

verus! {

/// A tool of the server.
#[derive(Debug, Clone, Copy, PartialEq, Eq, Structural)]
pub enum ToolKind {
    CreateSandbox,
    DestroySandbox,
    ListSandboxes,
    ExecuteCode,
    RunCommand,
    ReadFile,
    WriteFile,
    ListDirectory,
}

impl ToolKind {
    /// The name of the tool.
    pub open spec fn name_text(self) -> Seq<char> {
        match self {
            ToolKind::CreateSandbox => "create_sandbox"@,
            ToolKind::DestroySandbox => "destroy_sandbox"@,
            ToolKind::ListSandboxes => "list_sandboxes"@,
            ToolKind::ExecuteCode => "execute_code"@,
            ToolKind::RunCommand => "run_command"@,
            ToolKind::ReadFile => "read_file"@,
            ToolKind::WriteFile => "write_file"@,
            ToolKind::ListDirectory => "list_directory"@,
        }
    }

    /// The tool that a name stands for.
    pub open spec fn of_name(name: Seq<char>) -> Option<ToolKind> {
        if name == "create_sandbox"@ {
            Some(ToolKind::CreateSandbox)
        } else if name == "destroy_sandbox"@ {
            Some(ToolKind::DestroySandbox)
        } else if name == "list_sandboxes"@ {
            Some(ToolKind::ListSandboxes)
        } else if name == "execute_code"@ {
            Some(ToolKind::ExecuteCode)
        } else if name == "run_command"@ {
            Some(ToolKind::RunCommand)
        } else if name == "read_file"@ {
            Some(ToolKind::ReadFile)
        } else if name == "write_file"@ {
            Some(ToolKind::WriteFile)
        } else if name == "list_directory"@ {
            Some(ToolKind::ListDirectory)
        } else {
            None
        }
    }

    /// The name of the tool.
    pub fn name(&self) -> (s: &'static str)
        ensures
            s@ == self.name_text(),
    {
        match self {
            ToolKind::CreateSandbox => "create_sandbox",
            ToolKind::DestroySandbox => "destroy_sandbox",
            ToolKind::ListSandboxes => "list_sandboxes",
            ToolKind::ExecuteCode => "execute_code",
            ToolKind::RunCommand => "run_command",
            ToolKind::ReadFile => "read_file",
            ToolKind::WriteFile => "write_file",
            ToolKind::ListDirectory => "list_directory",
        }
    }

    /// What the tool does, in a sentence.
    pub open spec fn description_text(self) -> Seq<char> {
        match self {
            ToolKind::CreateSandbox => "Create a new isolated sandbox for code execution. Returns sandbox_id."@,
            ToolKind::DestroySandbox => "Destroy a sandbox and release all resources."@,
            ToolKind::ListSandboxes => "List all active sandboxes with their metadata."@,
            ToolKind::ExecuteCode => "Execute code in a specific language (python, node, bash, etc.) inside a sandbox."@,
            ToolKind::RunCommand => "Execute a shell command inside a sandbox."@,
            ToolKind::ReadFile => "Read a file from the sandbox filesystem."@,
            ToolKind::WriteFile => "Write a file to the sandbox filesystem."@,
            ToolKind::ListDirectory => "List contents of a directory in the sandbox."@,
        }
    }

    /// What the tool does, in a sentence.
    pub fn description(&self) -> (s: &'static str)
        ensures
            s@ == self.description_text(),
    {
        match self {
            ToolKind::CreateSandbox => "Create a new isolated sandbox for code execution. Returns sandbox_id.",
            ToolKind::DestroySandbox => "Destroy a sandbox and release all resources.",
            ToolKind::ListSandboxes => "List all active sandboxes with their metadata.",
            ToolKind::ExecuteCode => "Execute code in a specific language (python, node, bash, etc.) inside a sandbox.",
            ToolKind::RunCommand => "Execute a shell command inside a sandbox.",
            ToolKind::ReadFile => "Read a file from the sandbox filesystem.",
            ToolKind::WriteFile => "Write a file to the sandbox filesystem.",
            ToolKind::ListDirectory => "List contents of a directory in the sandbox.",
        }
    }

    /// The tool that a name stands for; `None` for a name that is not that
    /// of a tool.
    pub fn from_name(name: &str) -> (r: Option<ToolKind>)
        ensures
            r == ToolKind::of_name(name@),
    {
        if same_text(name, "create_sandbox") {
            Some(ToolKind::CreateSandbox)
        } else if same_text(name, "destroy_sandbox") {
            Some(ToolKind::DestroySandbox)
        } else if same_text(name, "list_sandboxes") {
            Some(ToolKind::ListSandboxes)
        } else if same_text(name, "execute_code") {
            Some(ToolKind::ExecuteCode)
        } else if same_text(name, "run_command") {
            Some(ToolKind::RunCommand)
        } else if same_text(name, "read_file") {
            Some(ToolKind::ReadFile)
        } else if same_text(name, "write_file") {
            Some(ToolKind::WriteFile)
        } else if same_text(name, "list_directory") {
            Some(ToolKind::ListDirectory)
        } else {
            None
        }
    }

    /// The words that precede the error of the registry where the tool
    /// failed.
    pub open spec fn failure_prefix(self) -> Seq<char> {
        match self {
            ToolKind::CreateSandbox => "Failed to create sandbox: "@,
            ToolKind::DestroySandbox => "Failed to destroy sandbox: "@,
            ToolKind::ListSandboxes => "Failed to list sandboxes: "@,
            ToolKind::ExecuteCode => "Execution failed: "@,
            ToolKind::RunCommand => "Execution failed: "@,
            ToolKind::ReadFile => "Failed to read file: "@,
            ToolKind::WriteFile => "Failed to write file: "@,
            ToolKind::ListDirectory => "Failed to list directory: "@,
        }
    }

    /// The one error string that the caller of a failed tool sees: what the
    /// tool was about, and the error of the registry.
    pub fn failure(&self, error: &CoreError) -> (m: String)
        ensures
            m@ == self.failure_prefix() + error.message_text(),
    {
        let prefix: &str = match self {
            ToolKind::CreateSandbox => "Failed to create sandbox: ",
            ToolKind::DestroySandbox => "Failed to destroy sandbox: ",
            ToolKind::ListSandboxes => "Failed to list sandboxes: ",
            ToolKind::ExecuteCode => "Execution failed: ",
            ToolKind::RunCommand => "Execution failed: ",
            ToolKind::ReadFile => "Failed to read file: ",
            ToolKind::WriteFile => "Failed to write file: ",
            ToolKind::ListDirectory => "Failed to list directory: ",
        };
        let cause: String = error.message();
        String::from_str(prefix).concat(cause.as_str())
    }

    /// The error string for a call that lacks parameters of the tool.
    pub fn missing_parameters(&self) -> (m: &'static str)
        ensures
            m@ == match *self {
                ToolKind::DestroySandbox => "Missing required parameter: sandbox_id"@,
                ToolKind::ExecuteCode => "Missing required parameters: sandbox_id, language, code"@,
                ToolKind::RunCommand => "Missing required parameters: sandbox_id, command"@,
                ToolKind::ReadFile => "Missing required parameters: sandbox_id, path"@,
                ToolKind::WriteFile => "Missing required parameters: sandbox_id, path, content"@,
                ToolKind::ListDirectory => "Missing required parameters: sandbox_id, path"@,
                _ => "Missing required parameters"@,
            },
    {
        match self {
            ToolKind::DestroySandbox => "Missing required parameter: sandbox_id",
            ToolKind::ExecuteCode => "Missing required parameters: sandbox_id, language, code",
            ToolKind::RunCommand => "Missing required parameters: sandbox_id, command",
            ToolKind::ReadFile => "Missing required parameters: sandbox_id, path",
            ToolKind::WriteFile => "Missing required parameters: sandbox_id, path, content",
            ToolKind::ListDirectory => "Missing required parameters: sandbox_id, path",
            _ => "Missing required parameters",
        }
    }
}

/// The tools of the server, in the order in which they are listed.
pub open spec fn all_tools() -> Seq<ToolKind> {
    seq![
        ToolKind::CreateSandbox,
        ToolKind::DestroySandbox,
        ToolKind::ListSandboxes,
        ToolKind::ExecuteCode,
        ToolKind::RunCommand,
        ToolKind::ReadFile,
        ToolKind::WriteFile,
        ToolKind::ListDirectory,
    ]
}

/// Lists the tools of the server.
pub fn build_tools_list() -> (tools: Vec<ToolKind>)
    ensures
        tools@ == all_tools(),
{
    let mut tools: Vec<ToolKind> = Vec::new();
    tools.push(ToolKind::CreateSandbox);
    tools.push(ToolKind::DestroySandbox);
    tools.push(ToolKind::ListSandboxes);
    tools.push(ToolKind::ExecuteCode);
    tools.push(ToolKind::RunCommand);
    tools.push(ToolKind::ReadFile);
    tools.push(ToolKind::WriteFile);
    tools.push(ToolKind::ListDirectory);
    assert(tools@ =~= all_tools());
    tools
}

/// The error string for a name that is not that of a tool.
pub fn unknown_tool(name: &str) -> (m: String)
    ensures
        m@ == "Unknown tool: "@ + name@,
{
    String::from_str("Unknown tool: ").concat(name)
}

/// The error string for a sandbox ID that is no identifier. It is the same
/// for every such ID, and says nothing of which IDs exist.
pub open spec fn invalid_id_message() -> Seq<char> {
    "Sandbox not found or invalid ID"@
}

/// Reads a sandbox ID from its text.
pub fn parse_sandbox_id(id: &str) -> (r: Result<SandboxId, String>)
    ensures
        match r {
            Ok(x) => parsed_uuid(id@) == Some(x.0),
            Err(m) => parsed_uuid(id@) is None && m@ == invalid_id_message(),
        },
{
    match SandboxId::parse(id) {
        Some(x) => Ok(x),
        None => Err(String::from_str("Sandbox not found or invalid ID")),
    }
}

/// The error string for an input that is too large.
pub open spec fn too_large(field_name: Seq<char>, size: nat, max_bytes: nat) -> Seq<char> {
    field_name + " exceeds maximum size ("@ + decimal(size) + " bytes > "@ + decimal(max_bytes)
        + " bytes)"@
}

/// Checks the size of an input: one of more than `max_bytes` bytes is
/// refused.
pub fn validate_size(content: &str, max_bytes: usize, field_name: &str) -> (r: Result<(), String>)
    ensures
        r is Ok <==> encode_utf8(content@).len() <= max_bytes,
        r matches Err(m) ==> m@ == too_large(
            field_name@,
            encode_utf8(content@).len(),
            max_bytes as nat,
        ),
{
    let size: usize = content.as_bytes().len();
    if size > max_bytes {
        let found: String = decimal_u64(size as u64);
        let limit: String = decimal_u64(max_bytes as u64);
        Err(
            String::from_str(field_name).concat(" exceeds maximum size (").concat(
                found.as_str(),
            ).concat(" bytes > ").concat(limit.as_str()).concat(" bytes)"),
        )
    } else {
        Ok(())
    }
}

/// What a tool call is checked for before the registry is called on: the
/// size of its input, then the form of its sandbox ID.
pub open spec fn checked(input: Seq<char>, max_bytes: nat, field_name: Seq<char>, id: Seq<char>) -> Result<
    SandboxId,
    Seq<char>,
> {
    if encode_utf8(input).len() > max_bytes {
        Err(too_large(field_name, encode_utf8(input).len(), max_bytes))
    } else {
        match parsed_uuid(id) {
            Some(value) => Ok(SandboxId(value)),
            None => Err(invalid_id_message()),
        }
    }
}

fn check(input: &str, max_bytes: usize, field_name: &str, id: &str) -> (r: Result<
    SandboxId,
    String,
>)
    ensures
        match r {
            Ok(x) => checked(input@, max_bytes as nat, field_name@, id@) == Ok::<
                SandboxId,
                Seq<char>,
            >(x),
            Err(m) => checked(input@, max_bytes as nat, field_name@, id@) == Err::<
                SandboxId,
                Seq<char>,
            >(m@),
        },
{
    match validate_size(input, max_bytes, field_name) {
        Err(m) => Err(m),
        Ok(_) => parse_sandbox_id(id),
    }
}

/// Checks a call of `execute_code`: the code may take 10 MiB.
pub fn check_execute_code(params: &ExecuteCodeParams) -> (r: Result<SandboxId, String>)
    ensures
        match r {
            Ok(x) => checked(
                params.code@,
                MAX_INPUT_SIZE_BYTES as nat,
                "code"@,
                params.sandbox_id@,
            ) == Ok::<SandboxId, Seq<char>>(x),
            Err(m) => checked(
                params.code@,
                MAX_INPUT_SIZE_BYTES as nat,
                "code"@,
                params.sandbox_id@,
            ) == Err::<SandboxId, Seq<char>>(m@),
        },
{
    check(params.code.as_str(), MAX_INPUT_SIZE_BYTES, "code", params.sandbox_id.as_str())
}

/// Checks a call of `run_command`: the command may take 1 MiB.
pub fn check_run_command(params: &RunCommandParams) -> (r: Result<SandboxId, String>)
    ensures
        match r {
            Ok(x) => checked(
                params.command@,
                MAX_COMMAND_LENGTH as nat,
                "command"@,
                params.sandbox_id@,
            ) == Ok::<SandboxId, Seq<char>>(x),
            Err(m) => checked(
                params.command@,
                MAX_COMMAND_LENGTH as nat,
                "command"@,
                params.sandbox_id@,
            ) == Err::<SandboxId, Seq<char>>(m@),
        },
{
    check(params.command.as_str(), MAX_COMMAND_LENGTH, "command", params.sandbox_id.as_str())
}

/// Checks a call of `write_file`: the content may take 10 MiB.
pub fn check_write_file(params: &WriteFileParams) -> (r: Result<SandboxId, String>)
    ensures
        match r {
            Ok(x) => checked(
                params.content@,
                MAX_INPUT_SIZE_BYTES as nat,
                "content"@,
                params.sandbox_id@,
            ) == Ok::<SandboxId, Seq<char>>(x),
            Err(m) => checked(
                params.content@,
                MAX_INPUT_SIZE_BYTES as nat,
                "content"@,
                params.sandbox_id@,
            ) == Err::<SandboxId, Seq<char>>(m@),
        },
{
    check(params.content.as_str(), MAX_INPUT_SIZE_BYTES, "content", params.sandbox_id.as_str())
}

/// The configuration of a sandbox that is built on demand: the server's
/// kernel and root filesystem, the memory and the vCPU count that the call
/// names, and the defaults for what it does not name.
pub open spec fn cold_start_view(
    kernel_path: Seq<char>,
    rootfs_path: Seq<char>,
    params: CreateSandboxParams,
) -> SandboxConfigView {
    SandboxConfigView {
        kernel_path,
        rootfs_path,
        memory_mib: match params.memory_mib {
            Some(m) => m,
            None => 256,
        },
        vcpu_count: match params.vcpu_count {
            Some(c) => c,
            None => 2,
        },
        ..SandboxConfig::default_view()
    }
}

/// The configuration of a sandbox that `create_sandbox` builds on demand. An
/// invalid one is refused with an error string that names the rule broken.
pub fn cold_start_config(kernel_path: &str, rootfs_path: &str, params: &CreateSandboxParams) -> (r:
    Result<SandboxConfig, String>)
    ensures
        r is Ok <==> cold_start_view(kernel_path@, rootfs_path@, *params).valid(),
        match r {
            Ok(c) => c@ == cold_start_view(kernel_path@, rootfs_path@, *params),
            Err(m) => cold_start_view(kernel_path@, rootfs_path@, *params).defect() matches Some(
                d,
            ) && m@ == "Invalid sandbox configuration: connection failed: "@ + d,
        },
{
    let mut builder = SandboxConfig::builder().kernel(kernel_path).rootfs(rootfs_path);
    match params.memory_mib {
        Some(m) => {
            builder = builder.memory_mib(m);
        },
        None => {},
    }
    match params.vcpu_count {
        Some(c) => {
            builder = builder.vcpu_count(c);
        },
        None => {},
    }
    match builder.build() {
        Ok(c) => Ok(c),
        Err(e) => {
            let cause: String = e.message();
            assert(cause@ =~= "connection failed: "@ + e->Connection_0@);
            let m = String::from_str("Invalid sandbox configuration: ").concat(cause.as_str());
            assert(m@ =~= "Invalid sandbox configuration: connection failed: "@
                + e->Connection_0@) by {
                reveal_strlit("Invalid sandbox configuration: connection failed: ");
                reveal_strlit("Invalid sandbox configuration: ");
                reveal_strlit("connection failed: ");
            }
            Err(m)
        },
    }
}

/// The result of an execution, as a tool hands it out.
pub fn exec_response(result: ExecResult) -> (r: ExecResponse)
    ensures
        r.exit_code == result.exit_code,
        r.stdout@ == result.stdout@,
        r.stderr@ == result.stderr@,
{
    ExecResponse { exit_code: result.exit_code, stdout: result.stdout, stderr: result.stderr }
}

/// An entry of a listing, as a tool hands it out.
pub fn entry_response(entry: FileEntry) -> (r: FileEntryResponse)
    ensures
        r.name@ == entry.name@,
        r.is_dir == entry.is_dir,
        r.size == entry.size,
{
    FileEntryResponse { name: entry.name, is_dir: entry.is_dir, size: entry.size }
}

} // verus!
