use bouvet::mcp::config::{
    BouvetConfig, ConfigError, Environment, PathsFound, TransportMode, MAX_COMMAND_LENGTH,
    MAX_INPUT_SIZE_BYTES,
};
use bouvet::mcp::server::{
    build_tools_list, check_execute_code, check_run_command, check_write_file, cold_start_config,
    entry_response, exec_response, parse_sandbox_id, unknown_tool, validate_size, ToolKind,
};
use bouvet::mcp::types::{
    CreateSandboxParams, ExecuteCodeParams, RunCommandParams, WriteFileParams,
};
use bouvet::error::CoreError;
use bouvet::protocol::{ExecResult, FileEntry};
use bouvet::sandbox::SandboxId;

#[test]
fn config_test_default_config() {
    let config = BouvetConfig::default();
    assert_eq!(config.kernel_path, "/var/lib/bouvet/vmlinux");
    assert_eq!(config.rootfs_path, "/var/lib/bouvet/debian-devbox.ext4");
    assert_eq!(config.firecracker_path, "/usr/local/bin/firecracker");
    assert_eq!(config.chroot_path, "/tmp/bouvet");
    assert_eq!(config.transport_mode, TransportMode::Both);
    assert_eq!(config.http_port, 8080);
}

#[test]
fn test_transport_mode_parsing() {
    assert_eq!(TransportMode::parse("stdio"), TransportMode::Stdio);
    assert_eq!(TransportMode::parse("STDIO"), TransportMode::Stdio);
    assert_eq!(TransportMode::parse("http"), TransportMode::Http);
    assert_eq!(TransportMode::parse("HTTP"), TransportMode::Http);
    assert_eq!(TransportMode::parse("both"), TransportMode::Both);
    assert_eq!(TransportMode::parse("anything"), TransportMode::Both);
}

#[test]
fn test_transport_mode_flags() {
    assert!(TransportMode::Stdio.stdio_enabled());
    assert!(!TransportMode::Stdio.http_enabled());

    assert!(!TransportMode::Http.stdio_enabled());
    assert!(TransportMode::Http.http_enabled());

    assert!(TransportMode::Both.stdio_enabled());
    assert!(TransportMode::Both.http_enabled());
}

#[test]
fn test_transport_mode_names() {
    assert_eq!(TransportMode::parse("sse"), TransportMode::Http);
    assert_eq!(TransportMode::parse("Remote"), TransportMode::Http);
    assert_eq!(TransportMode::parse(""), TransportMode::Both);
    assert_eq!(TransportMode::from_lowercase("STDIO"), TransportMode::Both);
    assert_eq!(TransportMode::default(), TransportMode::Both);
}

#[test]
fn config_test_from_env_uses_defaults() {
    let config = BouvetConfig::from_environment(Environment::default());
    let default = BouvetConfig::default();

    assert_eq!(config.kernel_path, default.kernel_path);
    assert_eq!(config.rootfs_path, default.rootfs_path);
    assert_eq!(config.firecracker_path, default.firecracker_path);
    assert_eq!(config.chroot_path, default.chroot_path);
    assert_eq!(config.transport_mode, TransportMode::Both);
    assert!(config.pool_enabled);
    assert_eq!(config.pool_min_size, 3);
    assert_eq!(config.pool_max_boots, 2);
    assert_eq!(config.http_host, "0.0.0.0");
    assert_eq!(config.http_port, 8080);
}

#[test]
fn test_config_from_environment() {
    let env = Environment {
        kernel: Some("/k".into()),
        rootfs: Some("/r".into()),
        firecracker: Some("/f".into()),
        chroot: Some("/c".into()),
        pool_enabled: Some("false".into()),
        pool_min_size: Some("7".into()),
        pool_max_boots: Some("x".into()),
        transport: Some("HTTP".into()),
        http_host: Some("127.0.0.1".into()),
        http_port: Some("65535".into()),
    };
    let config = BouvetConfig::from_environment(env);
    assert_eq!(config.kernel_path, "/k");
    assert_eq!(config.rootfs_path, "/r");
    assert_eq!(config.firecracker_path, "/f");
    assert_eq!(config.chroot_path, "/c");
    assert!(!config.pool_enabled);
    assert_eq!(config.pool_min_size, 7);
    assert_eq!(config.pool_max_boots, 2);
    assert_eq!(config.transport_mode, TransportMode::Http);
    assert_eq!(config.http_host, "127.0.0.1");
    assert_eq!(config.http_port, 65535);
    let pool = |v: &str| {
        BouvetConfig::from_environment(Environment {
            pool_enabled: Some(v.into()),
            http_port: Some("65536".into()),
            ..Environment::default()
        })
    };
    assert!(!pool("0").pool_enabled);
    assert!(pool("no").pool_enabled);
    assert!(pool("FALSE").pool_enabled);
    assert!(pool("").pool_enabled);
    assert_eq!(pool("1").http_port, 8080);
}

#[test]
fn test_config_validation() {
    let config = BouvetConfig::default();
    let all = PathsFound {
        kernel: true,
        rootfs: true,
        firecracker: true,
        chroot_parent: Some(true),
    };
    assert!(config.validate(&all).is_ok());
    assert!(config
        .validate(&PathsFound {
            chroot_parent: None,
            ..all
        })
        .is_ok());
    let failure = |found: PathsFound| config.validate(&found).unwrap_err().message();
    assert_eq!(
        failure(PathsFound {
            kernel: false,
            rootfs: false,
            ..all
        }),
        "kernel file not found: /var/lib/bouvet/vmlinux"
    );
    assert_eq!(
        failure(PathsFound {
            rootfs: false,
            ..all
        }),
        "rootfs file not found: /var/lib/bouvet/debian-devbox.ext4"
    );
    assert_eq!(
        failure(PathsFound {
            firecracker: false,
            chroot_parent: Some(false),
            ..all
        }),
        "firecracker binary not found: /usr/local/bin/firecracker"
    );
    assert_eq!(
        failure(PathsFound {
            chroot_parent: Some(false),
            ..all
        }),
        "chroot parent directory not found: /tmp/bouvet"
    );
    assert!(matches!(
        config.validate(&PathsFound { kernel: false, ..all }),
        Err(ConfigError::MissingKernel(_))
    ));
}

#[test]
fn config_test_max_input_size() {
    // Ensure constants are reasonable
    assert_eq!(MAX_INPUT_SIZE_BYTES, 10 * 1024 * 1024);
    assert_eq!(MAX_COMMAND_LENGTH, 1024 * 1024);
}

#[test]
fn test_parse_sandbox_id_valid() {
    let uuid_str = "550e8400-e29b-41d4-a716-446655440000";
    let result = parse_sandbox_id(uuid_str);
    assert!(result.is_ok());
    assert_eq!(result.unwrap(), SandboxId(0x550e8400_e29b_41d4_a716_446655440000));
}

#[test]
fn test_parse_sandbox_id_invalid() {
    let result = parse_sandbox_id("invalid");
    assert!(result.is_err());
    assert_eq!(result.unwrap_err(), "Sandbox not found or invalid ID");
}

#[test]
fn test_build_tools_list() {
    let tools = build_tools_list();
    assert_eq!(tools.len(), 8);
    assert!(tools.iter().any(|t| t.name() == "create_sandbox"));
    assert!(tools.iter().any(|t| t.name() == "destroy_sandbox"));
    assert!(tools.iter().any(|t| t.name() == "execute_code"));
    for tool in tools {
        assert_eq!(ToolKind::from_name(tool.name()), Some(tool));
        assert!(!tool.description().is_empty());
    }
    assert_eq!(ToolKind::from_name("nope"), None);
    assert_eq!(unknown_tool("nope"), "Unknown tool: nope");
}

#[test]
fn test_tool_failures() {
    let cause = CoreError::NotFound(SandboxId(1));
    assert_eq!(
        ToolKind::DestroySandbox.failure(&cause),
        "Failed to destroy sandbox: sandbox not found: 00000000-0000-0000-0000-000000000001"
    );
    let cause = CoreError::Connection("x".into());
    assert_eq!(ToolKind::CreateSandbox.failure(&cause), "Failed to create sandbox: connection failed: x");
    assert_eq!(ToolKind::ExecuteCode.failure(&cause), "Execution failed: connection failed: x");
    assert_eq!(ToolKind::RunCommand.failure(&cause), "Execution failed: connection failed: x");
    assert_eq!(ToolKind::ReadFile.failure(&cause), "Failed to read file: connection failed: x");
    assert_eq!(ToolKind::WriteFile.failure(&cause), "Failed to write file: connection failed: x");
    assert_eq!(
        ToolKind::ListDirectory.failure(&cause),
        "Failed to list directory: connection failed: x"
    );
    assert_eq!(
        ToolKind::DestroySandbox.missing_parameters(),
        "Missing required parameter: sandbox_id"
    );
    assert_eq!(
        ToolKind::ExecuteCode.missing_parameters(),
        "Missing required parameters: sandbox_id, language, code"
    );
    assert_eq!(
        ToolKind::WriteFile.missing_parameters(),
        "Missing required parameters: sandbox_id, path, content"
    );
}

#[test]
fn test_validate_size() {
    assert!(validate_size("", 0, "code").is_ok());
    assert!(validate_size("abc", 3, "code").is_ok());
    assert_eq!(
        validate_size("abcd", 3, "code").unwrap_err(),
        "code exceeds maximum size (4 bytes > 3 bytes)"
    );
    // The size is that of the bytes, not of the characters.
    assert_eq!(
        validate_size("éé", 3, "content").unwrap_err(),
        "content exceeds maximum size (4 bytes > 3 bytes)"
    );
}

#[test]
fn test_tool_checks() {
    let id = "550e8400-e29b-41d4-a716-446655440000";
    let ok = ExecuteCodeParams {
        sandbox_id: id.into(),
        language: "python".into(),
        code: "print(2+2)".into(),
    };
    assert_eq!(
        check_execute_code(&ok).unwrap(),
        SandboxId(0x550e8400_e29b_41d4_a716_446655440000)
    );
    let too_long = RunCommandParams {
        sandbox_id: "invalid".into(),
        command: "x".repeat(MAX_COMMAND_LENGTH + 1),
    };
    // The size is checked before the ID.
    assert_eq!(
        check_run_command(&too_long).unwrap_err(),
        "command exceeds maximum size (1048577 bytes > 1048576 bytes)"
    );
    let bad_id = RunCommandParams {
        sandbox_id: "invalid".into(),
        command: "x".repeat(MAX_COMMAND_LENGTH),
    };
    assert_eq!(check_run_command(&bad_id).unwrap_err(), "Sandbox not found or invalid ID");
    let write = WriteFileParams {
        sandbox_id: id.into(),
        path: "/p".into(),
        content: "x".repeat(MAX_INPUT_SIZE_BYTES + 1),
    };
    assert_eq!(
        check_write_file(&write).unwrap_err(),
        "content exceeds maximum size (10485761 bytes > 10485760 bytes)"
    );
    let code = ExecuteCodeParams {
        sandbox_id: id.into(),
        language: "python".into(),
        code: "x".repeat(MAX_INPUT_SIZE_BYTES + 1),
    };
    assert!(check_execute_code(&code).is_err());
}

#[test]
fn test_cold_start_config() {
    let config = cold_start_config("/k", "/r", &CreateSandboxParams::default()).unwrap();
    assert_eq!(config.kernel_path, "/k");
    assert_eq!(config.rootfs_path, "/r");
    assert_eq!(config.memory_mib, 256);
    assert_eq!(config.vcpu_count, 2);
    let config = cold_start_config(
        "/k",
        "/r",
        &CreateSandboxParams {
            memory_mib: Some(1024),
            vcpu_count: Some(8),
        },
    )
    .unwrap();
    assert_eq!(config.memory_mib, 1024);
    assert_eq!(config.vcpu_count, 8);
    assert_eq!(
        cold_start_config(
            "/k",
            "/r",
            &CreateSandboxParams {
                memory_mib: Some(64),
                vcpu_count: None,
            },
        )
        .unwrap_err(),
        "Invalid sandbox configuration: connection failed: memory_mib must be at least 128"
    );
    assert_eq!(
        cold_start_config("", "/r", &CreateSandboxParams::default()).unwrap_err(),
        "Invalid sandbox configuration: connection failed: kernel_path is required"
    );
}

#[test]
fn test_tool_results() {
    let r = exec_response(ExecResult {
        exit_code: 3,
        stdout: "o".into(),
        stderr: "e".into(),
    });
    assert_eq!((r.exit_code, r.stdout.as_str(), r.stderr.as_str()), (3, "o", "e"));
    let e = entry_response(FileEntry {
        name: "n".into(),
        is_dir: true,
        size: 0,
    });
    assert_eq!((e.name.as_str(), e.is_dir, e.size), ("n", true, 0));
}
