use bouvet::client::{
    after_failed_attempt, check_handshake, connect_failure, exec_result, finish_call,
    handshake_request, handshake_write_failure, interpret_response, list_dir_result, ping_result,
    read_file_result, write_file_result, AgentClient, ConnectStep, ReadOutcome,
};
use bouvet::config::SandboxConfig;
use bouvet::error::CoreError;
use bouvet::manager::{ManagerConfig, SandboxManager};
use bouvet::protocol::ExecResult;
use bouvet::sandbox::{
    boot_failure, directory_failure, missing_vsock, plan_launch, ClientProbe, LaunchStage, Sandbox,
    SandboxId, SandboxState,
};
use bouvet::vm::error::VmError;
use std::time::Duration;

#[test]
fn test_exec_result_success() {
    let result = ExecResult {
        exit_code: 0,
        stdout: "hello".to_string(),
        stderr: String::new(),
    };
    assert!(result.success());
}

#[test]
fn test_exec_result_failure() {
    let result = ExecResult {
        exit_code: 1,
        stdout: String::new(),
        stderr: "error".to_string(),
    };
    assert!(!result.success());
}

#[test]
fn test_config_defaults() {
    let config = SandboxConfig::default();
    assert_eq!(config.memory_mib, 256);
    assert_eq!(config.vcpu_count, 2);
    assert!(config.timeout.is_none());
}

#[test]
fn test_builder_validation_missing_kernel() {
    let result = SandboxConfig::builder()
        .rootfs("/path/to/rootfs.ext4")
        .build();
    assert!(result.is_err());
}

#[test]
fn test_builder_validation_missing_rootfs() {
    let result = SandboxConfig::builder().kernel("/path/to/vmlinux").build();
    assert!(result.is_err());
}

#[test]
fn test_builder_success() {
    let config = SandboxConfig::builder()
        .kernel("/path/to/vmlinux")
        .rootfs("/path/to/rootfs.ext4")
        .memory_mib(512)
        .vcpu_count(4)
        .timeout(Duration::from_secs(60))
        .build()
        .expect("should build successfully");

    assert_eq!(config.kernel_path, "/path/to/vmlinux");
    assert_eq!(config.rootfs_path, "/path/to/rootfs.ext4");
    assert_eq!(config.memory_mib, 512);
    assert_eq!(config.vcpu_count, 4);
    assert_eq!(config.timeout, Some(Duration::from_secs(60)));
}

fn valid_config() -> SandboxConfig {
    SandboxConfig::builder()
        .kernel("/k")
        .rootfs("/r")
        .chroot_path("/srv/box")
        .build()
        .unwrap()
}

fn refusal(result: Result<SandboxConfig, CoreError>) -> String {
    match result {
        Err(CoreError::Connection(m)) => m,
        other => panic!("unexpected: {:?}", other),
    }
}

#[test]
fn test_builder_validation_rules() {
    let base = || SandboxConfig::builder().kernel("/k").rootfs("/r");
    assert_eq!(refusal(SandboxConfig::builder().build()), "kernel_path is required");
    assert_eq!(
        refusal(SandboxConfig::builder().kernel("/k").build()),
        "rootfs_path is required"
    );
    assert_eq!(refusal(base().memory_mib(127).build()), "memory_mib must be at least 128");
    assert!(base().memory_mib(128).build().is_ok());
    assert_eq!(refusal(base().vcpu_count(0).build()), "vcpu_count must be 1-32");
    assert_eq!(refusal(base().vcpu_count(33).build()), "vcpu_count must be 1-32");
    assert!(base().vcpu_count(1).build().is_ok());
    assert!(base().vcpu_count(32).build().is_ok());
    assert_eq!(refusal(base().vsock_cid(2).build()), "vsock_cid must be >= 3");
    let config = base().vsock_cid(3).chroot_path("/srv").build().unwrap();
    assert_eq!(config.vsock_cid, 3);
    assert_eq!(config.chroot_path, "/srv");
    assert_eq!(SandboxConfig::default().chroot_path, "/tmp/bouvet");
    assert_eq!(SandboxConfig::default().vsock_cid, 3);
    assert!(SandboxConfig::default().validate().is_err());
}

#[test]
fn test_sandbox_state_display() {
    assert_eq!(SandboxState::Creating.to_string(), "Creating");
    assert_eq!(SandboxState::Ready.to_string(), "Ready");
    assert_eq!(SandboxState::Destroyed.to_string(), "Destroyed");
}

#[test]
fn test_sandbox_id_display() {
    let id = SandboxId::new();
    let s = id.to_string();
    // UUID format: xxxxxxxx-xxxx-xxxx-xxxx-xxxxxxxxxxxx
    assert_eq!(s.len(), 36);
    assert!(s.contains('-'));
}

#[test]
fn test_sandbox_id_is_of_version_4() {
    for _ in 0..64 {
        let id = SandboxId::new();
        // The four bits of the version and the two of the variant.
        assert_eq!((id.0 >> 76) & 0xf, 4);
        assert_eq!((id.0 >> 62) & 0x3, 2);
        let uuid = uuid::Uuid::from_u128(id.0);
        assert_eq!(uuid.get_version(), Some(uuid::Version::Random));
        assert_eq!(uuid.get_variant(), uuid::Variant::RFC4122);
        let text = id.to_string();
        assert_eq!(&text[14..15], "4");
        assert!(matches!(&text[19..20], "8" | "9" | "a" | "b"));
    }
}

#[test]
fn test_sandbox_id_from_uuid() {
    let uuid = uuid::Uuid::new_v4();
    let id = SandboxId(uuid.as_u128());
    assert_eq!(id.to_string(), format!("{}", uuid));
}

#[test]
fn test_sandbox_id_text_round_trip() {
    let id = SandboxId(0x550e8400_e29b_41d4_a716_446655440000);
    assert_eq!(id.to_string(), "550e8400-e29b-41d4-a716-446655440000");
    assert_eq!(SandboxId::parse("550e8400-e29b-41d4-a716-446655440000"), Some(id));
    assert_eq!(SandboxId::parse("not-an-id"), None);
    assert_ne!(SandboxId::new(), SandboxId::new());
    assert_ne!(SandboxId::default(), SandboxId(0));
}

#[test]
fn test_core_error_messages() {
    assert_eq!(
        CoreError::Vm(VmError::Start("x".into())).message(),
        "VM error: failed to start VM: x"
    );
    assert_eq!(CoreError::Connection("x".into()).message(), "connection failed: x");
    assert_eq!(
        CoreError::AgentTimeout(Duration::from_secs(10)).message(),
        "agent timeout after 10s"
    );
    assert_eq!(
        CoreError::Rpc {
            code: -32601,
            message: "method not found: x".into()
        }
        .message(),
        "RPC error -32601: method not found: x"
    );
    assert_eq!(
        CoreError::NotFound(SandboxId(1)).message(),
        "sandbox not found: 00000000-0000-0000-0000-000000000001"
    );
    assert_eq!(
        CoreError::InvalidState {
            expected: "Ready".into(),
            actual: "Destroyed".into()
        }
        .message(),
        "invalid state: expected Ready, got Destroyed"
    );
    assert_eq!(CoreError::Json("x".into()).message(), "JSON error: x");
    assert_eq!(CoreError::Io("x".into()).message(), "I/O error: x");
    let from: CoreError = VmError::Config("c".into()).into();
    assert!(matches!(from, CoreError::Vm(VmError::Config(m)) if m == "c"));
}

#[test]
fn test_plan_launch() {
    let id = SandboxId(0x550e8400_e29b_41d4_a716_446655440000);
    let config = SandboxConfig::builder()
        .kernel("/k")
        .rootfs("/r")
        .chroot_path("/srv/box")
        .memory_mib(512)
        .vcpu_count(4)
        .vsock_cid(10001)
        .build()
        .unwrap();
    let plan = plan_launch(id, &config);
    assert_eq!(plan.id, id);
    assert_eq!(plan.directory, "/srv/box/550e8400-e29b-41d4-a716-446655440000");
    assert_eq!(plan.vsock.guest_cid, 10001);
    assert_eq!(
        plan.vsock.uds_path,
        "/srv/box/550e8400-e29b-41d4-a716-446655440000/v.sock"
    );
    assert_eq!(plan.machine.vcpu_count, 4);
    assert_eq!(plan.machine.memory_mib, 512);
    assert_eq!(plan.machine.kernel_path, "/k");
    assert_eq!(plan.machine.root_drive.path_on_host, "/r");
    assert_eq!(plan.machine.chroot_path, "/srv/box");
    assert_eq!(plan.machine.firecracker_path, "/usr/local/bin/firecracker");
    let vsock = plan.machine.vsock.as_ref().unwrap();
    assert_eq!(vsock.guest_cid, 10001);
    assert_eq!(vsock.uds_path, plan.vsock.uds_path);
    assert!(plan.machine.validate().is_ok());
    assert_eq!(
        plan.stages,
        vec![
            LaunchStage::EnsureDirectory,
            LaunchStage::BootVm,
            LaunchStage::Connect,
            LaunchStage::Ping
        ]
    );
}

#[test]
fn test_two_sandboxes_never_share_a_socket() {
    let config = valid_config();
    let a = plan_launch(SandboxId(1), &config);
    let b = plan_launch(SandboxId(2), &config);
    assert_ne!(a.directory, b.directory);
    assert_ne!(a.vsock.uds_path, b.vsock.uds_path);
}

#[test]
fn test_launch_failures() {
    let c = LaunchStage::EnsureDirectory.cleanup();
    assert!(c.remove_directory && !c.destroy_vm);
    let c = LaunchStage::BootVm.cleanup();
    assert!(c.remove_directory && !c.destroy_vm);
    let c = LaunchStage::Connect.cleanup();
    assert!(c.remove_directory && c.destroy_vm);
    let c = LaunchStage::Ping.cleanup();
    assert!(c.remove_directory && c.destroy_vm);
    assert!(matches!(
        directory_failure("denied"),
        CoreError::Connection(m) if m == "Failed to create vsock directory: denied"
    ));
    assert!(matches!(
        boot_failure(VmError::Create("x".into())),
        CoreError::Vm(VmError::Create(m)) if m == "x"
    ));
    assert!(matches!(missing_vsock(), CoreError::Connection(m) if m == "vsock not configured"));
}

#[test]
fn test_sandbox_operations() {
    let id = SandboxId(7);
    let sandbox = Sandbox::ready(id, valid_config(), "handle", 1234);
    assert_eq!(sandbox.id(), id);
    assert_eq!(sandbox.state(), SandboxState::Ready);
    assert_eq!(sandbox.created_at(), 1234);
    assert_eq!(sandbox.config().chroot_path, "/srv/box");
    assert_eq!(*sandbox.handle(), "handle");
    assert!(sandbox.ensure_ready().is_ok());
    assert_eq!(*sandbox.handle_if_ready().unwrap(), "handle");
    assert!(sandbox.wants_probe());
    assert!(sandbox.is_healthy(ClientProbe::Answered));
    assert!(sandbox.is_healthy(ClientProbe::Busy));
    assert!(!sandbox.is_healthy(ClientProbe::Failed));
    let teardown = sandbox.destroy();
    assert_eq!(teardown.id, id);
    assert_eq!(teardown.handle, "handle");
    assert_eq!(teardown.directory, "/srv/box/00000000-0000-0000-0000-000000000007");
}

#[test]
fn test_destroyed_sandbox_takes_no_commands() {
    let mut sandbox = Sandbox::ready(SandboxId(8), valid_config(), "handle", 0);
    sandbox.retire();
    assert_eq!(sandbox.state(), SandboxState::Destroyed);
    match sandbox.ensure_ready() {
        Err(CoreError::InvalidState { expected, actual }) => {
            assert_eq!(expected, "Ready");
            assert_eq!(actual, "Destroyed");
        }
        other => panic!("unexpected: {:?}", other),
    }
    assert!(matches!(
        sandbox.handle_if_ready(),
        Err(CoreError::InvalidState { .. })
    ));
    assert!(!sandbox.wants_probe());
    assert!(!sandbox.is_healthy(ClientProbe::Answered));
    assert!(!sandbox.is_healthy(ClientProbe::Busy));
    // There is no way back.
    sandbox.retire();
    assert_eq!(sandbox.state(), SandboxState::Destroyed);

    let mut manager: SandboxManager<&str> = SandboxManager::new(test_config());
    let id = manager.insert(sandbox);
    assert!(matches!(manager.route(id), Err(CoreError::InvalidState { .. })));
    assert!(manager.get(id).is_ok());
}

fn test_config() -> ManagerConfig {
    ManagerConfig::new(
        "/path/to/vmlinux",
        "/path/to/rootfs.ext4",
        "/usr/bin/firecracker",
        "/tmp/petty",
    )
}

#[test]
fn test_manager_config_new() {
    let config = test_config();
    assert_eq!(config.kernel_path, "/path/to/vmlinux");
    assert_eq!(config.rootfs_path, "/path/to/rootfs.ext4");
    assert_eq!(config.firecracker_path, "/usr/bin/firecracker");
    assert_eq!(config.chroot_path, "/tmp/petty");
}

#[test]
fn test_manager_empty() {
    let manager: SandboxManager<u8> = SandboxManager::new(test_config());
    assert_eq!(manager.count(), 0);
    assert!(manager.list().is_empty());
}

#[test]
fn test_manager_not_found() {
    let mut manager: SandboxManager<u8> = SandboxManager::new(test_config());
    let id = SandboxId::new();
    let result = manager.destroy(id);
    assert!(matches!(result, Err(CoreError::NotFound(_))));
}

#[test]
fn test_manager_exists() {
    let manager: SandboxManager<u8> = SandboxManager::new(test_config());
    let id = SandboxId::new();
    assert!(!manager.contains(id));
}

#[test]
fn test_manager_lifecycle() {
    let mut config = test_config();
    assert_eq!(config.max_sandboxes, 100);
    config.max_sandboxes = 2;
    let mut manager: SandboxManager<&str> = SandboxManager::new(config);
    assert_eq!(manager.config().max_sandboxes, 2);
    let default_config = manager.default_sandbox_config().unwrap();
    assert_eq!(default_config.kernel_path, "/path/to/vmlinux");
    assert_eq!(default_config.rootfs_path, "/path/to/rootfs.ext4");
    assert_eq!(default_config.memory_mib, 256);

    assert!(manager.check_capacity().is_ok());
    let a = manager.insert(Sandbox::ready(SandboxId(1), valid_config(), "a", 0));
    assert_eq!(a, SandboxId(1));
    let b = manager
        .register(Sandbox::ready(SandboxId(2), valid_config(), "b", 0))
        .ok()
        .unwrap();
    assert_eq!(manager.count(), 2);
    assert!(manager.contains(a) && manager.contains(b));
    let mut ids = manager.list();
    ids.sort_by_key(|id| id.0);
    assert_eq!(ids, vec![a, b]);

    // The registry is full: the sandbox comes back with the error.
    match manager.check_capacity() {
        Err(CoreError::Connection(m)) => assert_eq!(m, "max sandbox limit reached (2)"),
        other => panic!("unexpected: {:?}", other),
    }
    match manager.register(Sandbox::ready(SandboxId(3), valid_config(), "c", 0)) {
        Err((CoreError::Connection(m), back)) => {
            assert_eq!(m, "max sandbox limit reached (2)");
            assert_eq!(back.id(), SandboxId(3));
            assert_eq!(*back.handle(), "c");
        }
        _ => panic!("the registry took a sandbox beyond its cap"),
    }
    assert_eq!(manager.count(), 2);

    assert_eq!(manager.get(a).unwrap().id(), a);
    assert_eq!(*manager.route(b).unwrap(), "b");
    assert!(matches!(manager.get(SandboxId(9)), Err(CoreError::NotFound(id)) if id == SandboxId(9)));
    assert!(
        matches!(manager.route(SandboxId(9)), Err(CoreError::NotFound(id)) if id == SandboxId(9))
    );

    let teardown = manager.destroy(a).unwrap();
    assert_eq!(teardown.id, a);
    assert_eq!(teardown.handle, "a");
    assert_eq!(teardown.directory, "/srv/box/00000000-0000-0000-0000-000000000001");
    // After the destroy the identifier is unknown to every operation.
    assert!(!manager.contains(a));
    assert!(matches!(manager.get(a), Err(CoreError::NotFound(id)) if id == a));
    assert!(matches!(manager.route(a), Err(CoreError::NotFound(id)) if id == a));
    assert!(matches!(manager.destroy(a), Err(CoreError::NotFound(id)) if id == a));
    assert_eq!(manager.list(), vec![b]);
    assert!(manager.check_capacity().is_ok());

    manager.insert(Sandbox::ready(SandboxId(4), valid_config(), "d", 0));
    let mut all: Vec<(u128, &str)> = manager
        .destroy_all()
        .into_iter()
        .map(|t| (t.id.0, t.handle))
        .collect();
    all.sort();
    assert_eq!(all, vec![(2, "b"), (4, "d")]);
    assert_eq!(manager.count(), 0);
    assert!(manager.destroy_all().is_empty());
}

#[test]
fn test_manager_without_cap() {
    let mut config = test_config();
    config.max_sandboxes = 0;
    let mut manager: SandboxManager<u8> = SandboxManager::new(config);
    for i in 1..=150u128 {
        assert!(manager
            .register(Sandbox::ready(SandboxId(i), valid_config(), 0, 0))
            .is_ok());
    }
    assert_eq!(manager.count(), 150);
    let empty: SandboxManager<u8> =
        SandboxManager::new(ManagerConfig::new("", "/r", "/f", "/c"));
    assert!(empty.default_sandbox_config().is_err());
}

#[test]
fn test_connect_policy() {
    match after_failed_attempt(0) {
        ConnectStep::Retry { after_ms } => assert_eq!(after_ms, 100),
        other => panic!("unexpected: {:?}", other),
    }
    assert!(matches!(after_failed_attempt(9_999), ConnectStep::Retry { .. }));
    match after_failed_attempt(10_000) {
        ConnectStep::GiveUp(CoreError::AgentTimeout(d)) => assert_eq!(d, Duration::from_secs(10)),
        other => panic!("unexpected: {:?}", other),
    }
    assert!(matches!(after_failed_attempt(u64::MAX), ConnectStep::GiveUp(_)));
}

#[test]
fn test_handshake() {
    assert_eq!(handshake_request(), "CONNECT 52\n");
    assert!(check_handshake("OK 52\n").is_ok());
    assert!(check_handshake("OK 1073741824\n").is_ok());
    match check_handshake("  refused \n") {
        Err(CoreError::Connection(m)) => assert_eq!(m, "handshake failed: refused"),
        other => panic!("unexpected: {:?}", other),
    }
    assert!(check_handshake("OK").is_err());
    assert!(check_handshake("").is_err());
    assert!(matches!(
        connect_failure("no such file"),
        CoreError::Connection(m) if m == "socket connect failed: no such file"
    ));
    assert!(matches!(
        handshake_write_failure("broken pipe"),
        CoreError::Connection(m) if m == "handshake write failed: broken pipe"
    ));
}

#[test]
fn test_ping_request_line() {
    let mut client = AgentClient::new();
    assert_eq!(
        client.ping().unwrap(),
        "{\"jsonrpc\":\"2.0\",\"id\":1,\"method\":\"ping\",\"params\":{}}\n"
    );
    let response = "{\"jsonrpc\":\"2.0\",\"id\":1,\"result\":{\"pong\":true}}";
    let result = interpret_response(response).unwrap();
    assert!(ping_result(&result).is_ok());
}

#[test]
fn test_request_ids_increase() {
    let mut client = AgentClient::new();
    assert_eq!(
        client.exec("echo hello").unwrap(),
        "{\"jsonrpc\":\"2.0\",\"id\":1,\"method\":\"exec\",\"params\":{\"cmd\":\"echo hello\"}}\n"
    );
    assert_eq!(
        client.exec_code("python", "print(2+2)").unwrap(),
        "{\"jsonrpc\":\"2.0\",\"id\":2,\"method\":\"exec_code\",\"params\":{\"code\":\"print(2+2)\",\"lang\":\"python\"}}\n"
    );
    assert_eq!(
        client.read_file("/tmp/a/b/c.txt").unwrap(),
        "{\"jsonrpc\":\"2.0\",\"id\":3,\"method\":\"read_file\",\"params\":{\"path\":\"/tmp/a/b/c.txt\"}}\n"
    );
    assert_eq!(
        client.write_file("/tmp/a/b/c.txt", "x\"y\nz").unwrap(),
        "{\"jsonrpc\":\"2.0\",\"id\":4,\"method\":\"write_file\",\"params\":{\"content\":\"x\\\"y\\nz\",\"path\":\"/tmp/a/b/c.txt\"}}\n"
    );
    assert_eq!(
        client.list_dir("/").unwrap(),
        "{\"jsonrpc\":\"2.0\",\"id\":5,\"method\":\"list_dir\",\"params\":{\"path\":\"/\"}}\n"
    );
    let params = serde_json::Value::Array(vec![serde_json::Value::from(1)]);
    assert_eq!(
        client.call("custom", &params).unwrap(),
        "{\"jsonrpc\":\"2.0\",\"id\":6,\"method\":\"custom\",\"params\":[1]}\n"
    );
}

fn rpc_error(result: Result<serde_json::Value, CoreError>) -> (i32, String) {
    match result {
        Err(CoreError::Rpc { code, message }) => (code, message),
        other => panic!("unexpected: {:?}", other),
    }
}

#[test]
fn test_interpret_response() {
    let ok = interpret_response("{\"jsonrpc\":\"2.0\",\"id\":1,\"result\":{\"a\":1}}\n").unwrap();
    assert_eq!(ok, serde_json::from_str::<serde_json::Value>("{\"a\":1}").unwrap());
    assert_eq!(
        rpc_error(interpret_response(
            "{\"jsonrpc\":\"2.0\",\"id\":1,\"error\":{\"code\":-32601,\"message\":\"method not found: x\"}}"
        )),
        (-32601, "method not found: x".to_string())
    );
    // An error decides, whatever else the response holds.
    assert_eq!(
        rpc_error(interpret_response("{\"result\":1,\"error\":{}}")),
        (-1, "unknown error".to_string())
    );
    assert_eq!(
        rpc_error(interpret_response("{\"error\":{\"code\":\"x\",\"message\":7}}")),
        (-1, "unknown error".to_string())
    );
    // A code beyond 32 bits is cut to its low 32 bits.
    assert_eq!(
        rpc_error(interpret_response("{\"error\":{\"code\":4294967297,\"message\":\"m\"}}")),
        (1, "m".to_string())
    );
    assert_eq!(
        rpc_error(interpret_response("{\"jsonrpc\":\"2.0\",\"id\":1}")),
        (-1, "missing result in response".to_string())
    );
    assert!(matches!(interpret_response("not json"), Err(CoreError::Json(_))));
    assert!(matches!(interpret_response(""), Err(CoreError::Json(_))));
}

#[test]
fn test_finish_call() {
    assert!(finish_call(ReadOutcome::Line("{\"result\":null}".into())).is_ok());
    assert_eq!(
        rpc_error(finish_call(ReadOutcome::TimedOut)),
        (-1, "response timeout".to_string())
    );
    assert!(matches!(
        finish_call(ReadOutcome::Failed("reset".into())),
        Err(CoreError::Io(m)) if m == "reset"
    ));
}

fn value(text: &str) -> serde_json::Value {
    serde_json::from_str(text).unwrap()
}

#[test]
fn test_typed_results() {
    let r = exec_result(&value("{\"exit_code\":0,\"stdout\":\"hello\\n\",\"stderr\":\"\"}")).unwrap();
    assert_eq!(r.exit_code, 0);
    assert_eq!(r.stdout.trim(), "hello");
    assert_eq!(r.stderr, "");
    let r = exec_result(&value("{\"exit_code\":-1,\"stdout\":\"\",\"stderr\":\"e\",\"more\":1}"))
        .unwrap();
    assert_eq!(r.exit_code, -1);
    match exec_result(&value("{\"stdout\":\"\",\"stderr\":\"\"}")) {
        Err(CoreError::Json(m)) => assert_eq!(m, "missing field `exit_code`"),
        other => panic!("unexpected: {:?}", other),
    }
    match exec_result(&value("{\"exit_code\":2147483648,\"stdout\":\"\",\"stderr\":\"\"}")) {
        Err(CoreError::Json(m)) => {
            assert_eq!(m, "invalid type for field `exit_code`, expected a 32-bit integer")
        }
        other => panic!("unexpected: {:?}", other),
    }
    match exec_result(&value("{\"exit_code\":0,\"stdout\":1,\"stderr\":\"\"}")) {
        Err(CoreError::Json(m)) => {
            assert_eq!(m, "invalid type for field `stdout`, expected a string")
        }
        other => panic!("unexpected: {:?}", other),
    }
    assert_eq!(read_file_result(&value("{\"content\":\"xyz\"}")).unwrap(), "xyz");
    assert!(read_file_result(&value("{}")).is_err());
    assert!(write_file_result(&value("{\"success\":true}")).is_ok());
    match write_file_result(&value("{\"success\":1}")) {
        Err(CoreError::Json(m)) => {
            assert_eq!(m, "invalid type for field `success`, expected a boolean")
        }
        other => panic!("unexpected: {:?}", other),
    }
    assert!(ping_result(&value("{\"pong\":true}")).is_ok());
    assert!(ping_result(&value("[]")).is_err());
    let entries = list_dir_result(&value(
        "{\"entries\":[{\"name\":\"file1\",\"is_dir\":false,\"size\":7},{\"name\":\"subdir\",\"is_dir\":true,\"size\":0}]}",
    ))
    .unwrap();
    assert_eq!(entries.len(), 2);
    assert_eq!(entries[0].name, "file1");
    assert!(!entries[0].is_dir);
    assert_eq!(entries[0].size, 7);
    assert!(entries[1].is_dir);
    match list_dir_result(&value("{\"entries\":[{\"name\":\"a\",\"is_dir\":false,\"size\":-1}]}")) {
        Err(CoreError::Json(m)) => assert_eq!(
            m,
            "invalid type for field `size`, expected an unsigned 64-bit integer"
        ),
        other => panic!("unexpected: {:?}", other.map(|e| e.len())),
    }
    match list_dir_result(&value("{\"entries\":{}}")) {
        Err(CoreError::Json(m)) => {
            assert_eq!(m, "invalid type for field `entries`, expected an array")
        }
        other => panic!("unexpected: {:?}", other.map(|e| e.len())),
    }
    assert!(list_dir_result(&value("{}")).is_err());
    assert!(list_dir_result(&value("{\"entries\":[]}")).unwrap().is_empty());
}
