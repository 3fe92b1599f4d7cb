use bouvet::vm::builder::VmBuilder;
use bouvet::vm::config::{DriveConfig, MachineConfig, NetworkConfig, VsockConfig};
use bouvet::vm::control::{machine_config_body, vsock_body, ControlCall};
use bouvet::vm::error::VmError;
use bouvet::vm::machine::{boot_plan, BootStage, VirtualMachine, VmState};

#[test]
fn builder_test_default_config() {
    let config = MachineConfig::default();
    assert_eq!(config.vcpu_count, 2);
    assert_eq!(config.memory_mib, 256);
    assert!(config.network.is_none());
    assert!(config.vsock.is_none());
}

#[test]
fn test_builder_vcpus_memory() {
    let config = VmBuilder::new().vcpus(4).memory_mib(512).build_config();

    assert_eq!(config.vcpu_count, 4);
    assert_eq!(config.memory_mib, 512);
}

#[test]
fn test_builder_kernel_rootfs() {
    let config = VmBuilder::new()
        .kernel("/path/to/kernel")
        .rootfs("/path/to/rootfs")
        .build_config();

    assert_eq!(config.kernel_path, "/path/to/kernel");
    assert_eq!(config.root_drive.path_on_host, "/path/to/rootfs");
}

#[test]
fn test_builder_with_network() {
    let config = VmBuilder::new().with_network("tap0").build_config();

    assert!(config.network.is_some());
    let net = config.network.unwrap();
    assert_eq!(net.host_dev_name, "tap0");
}

#[test]
fn test_builder_with_vsock() {
    let config = VmBuilder::new().with_vsock(5).build_config();

    assert!(config.vsock.is_some());
    let vsock = config.vsock.unwrap();
    assert_eq!(vsock.guest_cid, 5);
}

#[test]
fn test_builder_with_extra_drive() {
    let config = VmBuilder::new()
        .with_drive("data", "/path/to/data.ext4")
        .build_config();

    assert_eq!(config.extra_drives.len(), 1);
    assert_eq!(config.extra_drives[0].drive_id, "data");
}

#[test]
fn test_builder_keeps_the_rest() {
    let config = VmBuilder::new()
        .boot_args("console=ttyS0")
        .rootfs_read_only()
        .firecracker_path("/opt/firecracker")
        .chroot_path("/srv/vms")
        .with_network_config(NetworkConfig {
            iface_id: "eth1".to_string(),
            host_dev_name: "tap7".to_string(),
            guest_mac: Some("AA:BB:CC:DD:EE:FF".to_string()),
        })
        .with_vsock_config(VsockConfig {
            guest_cid: 9,
            uds_path: "/srv/vms/x/v.sock".to_string(),
        })
        .build_config();
    assert_eq!(config.boot_args, "console=ttyS0");
    assert!(config.root_drive.is_read_only);
    assert!(config.root_drive.is_root_device);
    assert_eq!(config.root_drive.drive_id, "rootfs");
    assert_eq!(config.firecracker_path, "/opt/firecracker");
    assert_eq!(config.chroot_path, "/srv/vms");
    assert_eq!(config.vcpu_count, 2);
    assert_eq!(config.memory_mib, 256);
    let net = config.network.unwrap();
    assert_eq!(net.iface_id, "eth1");
    assert_eq!(net.guest_mac.as_deref(), Some("AA:BB:CC:DD:EE:FF"));
    assert_eq!(config.vsock.unwrap().guest_cid, 9);
}

#[test]
fn test_vsock_config_default() {
    let config = VsockConfig::default();
    assert_eq!(config.guest_cid, 3);
    assert_eq!(config.uds_path, "/tmp/bouvet-vsock.sock");
}

#[test]
fn test_vsock_serialization() {
    let vsock = VsockConfig {
        guest_cid: 5,
        uds_path: "/tmp/test.sock".to_string(),
    };
    let json = vsock_body(&vsock).unwrap();
    assert!(json.contains("\"guest_cid\":5"));
    assert!(json.contains("\"uds_path\":\"/tmp/test.sock\""));
}

#[test]
fn test_machine_config_serialization() {
    let json = machine_config_body(2, 256).unwrap();
    assert!(json.contains("\"mem_size_mib\":256"));
    assert!(json.contains("\"vcpu_count\":2"));
}

#[test]
fn test_machine_config_body_is_exact() {
    assert_eq!(
        machine_config_body(4, 512).unwrap(),
        "{\"mem_size_mib\":512,\"vcpu_count\":4}"
    );
    let vsock = VsockConfig {
        guest_cid: 7,
        uds_path: "/x/v.sock".to_string(),
    };
    assert_eq!(
        vsock_body(&vsock).unwrap(),
        "{\"guest_cid\":7,\"uds_path\":\"/x/v.sock\"}"
    );
}

#[test]
fn test_validate_vcpu() {
    let mut config = MachineConfig::default();
    config.vcpu_count = 0;
    assert!(config.validate().is_err());

    config.vcpu_count = 33;
    assert!(config.validate().is_err());

    config.vcpu_count = 4;
    assert!(config.validate().is_ok());
}

#[test]
fn test_validate_memory() {
    let mut config = MachineConfig::default();
    config.memory_mib = 64;
    assert!(config.validate().is_err());

    config.memory_mib = 128;
    assert!(config.validate().is_ok());
}

#[test]
fn test_validate_vsock_cid() {
    let mut config = MachineConfig::default();
    config.vsock = Some(VsockConfig {
        guest_cid: 2,
        uds_path: "/tmp/test.sock".to_string(),
    });
    assert!(config.validate().is_err());

    config.vsock = Some(VsockConfig {
        guest_cid: 3,
        uds_path: "/tmp/test.sock".to_string(),
    });
    assert!(config.validate().is_ok());
}

#[test]
fn test_validate_duplicate_drive_ids() {
    let mut config = MachineConfig::default();
    config.extra_drives.push(DriveConfig {
        drive_id: "rootfs".into(), // Same as root drive!
        path_on_host: "/tmp/extra.ext4".to_string(),
        is_root_device: false,
        is_read_only: true,
    });
    assert!(config.validate().is_err());
}

#[test]
fn test_validate_messages() {
    let mut config = MachineConfig::default();
    config.vcpu_count = 33;
    match config.validate() {
        Err(VmError::Config(m)) => assert_eq!(m, "vcpu_count must be 1-32, got 33"),
        other => panic!("unexpected: {:?}", other),
    }
    config.vcpu_count = 32;
    config.memory_mib = 127;
    match config.validate() {
        Err(VmError::Config(m)) => assert_eq!(m, "memory_mib must be at least 128, got 127"),
        other => panic!("unexpected: {:?}", other),
    }
    config.memory_mib = 128;
    config.vsock = Some(VsockConfig {
        guest_cid: 0,
        uds_path: "/tmp/test.sock".to_string(),
    });
    match config.validate() {
        Err(VmError::Config(m)) => assert_eq!(m, "vsock guest_cid must be > 2, got 0"),
        other => panic!("unexpected: {:?}", other),
    }
    config.vsock = None;
    let drive = |id: &str| DriveConfig {
        drive_id: id.to_string(),
        path_on_host: "/tmp/d.ext4".to_string(),
        is_root_device: false,
        is_read_only: false,
    };
    config.extra_drives = vec![drive("a"), drive("b"), drive("a"), drive("b")];
    match config.validate() {
        Err(VmError::Config(m)) => assert_eq!(m, "duplicate drive_id: a"),
        other => panic!("unexpected: {:?}", other),
    }
    config.extra_drives = vec![drive("a"), drive("b"), drive("c")];
    assert!(config.validate().is_ok());
}

#[test]
fn test_vsock_for_vm() {
    let config = VsockConfig::for_vm(5, "/tmp/petty", "vm-123");
    assert_eq!(config.guest_cid, 5);
    assert_eq!(config.uds_path, "/tmp/petty/vm-123/v.sock");
}

#[test]
fn test_vsock_for_vm_edges() {
    assert_eq!(VsockConfig::for_vm(3, "/tmp/x/", "a").uds_path, "/tmp/x/a/v.sock");
    assert_eq!(VsockConfig::for_vm(3, "", "a").uds_path, "a/v.sock");
    assert_eq!(VsockConfig::for_vm(3, "/tmp/x", "/abs").uds_path, "/abs/v.sock");
    assert_eq!(VsockConfig::for_vm(3, "/tmp/x", "").uds_path, "/tmp/x/v.sock");
    assert_eq!(VsockConfig::for_vm(3, "/", "a").uds_path, "/a/v.sock");
    assert_eq!(VsockConfig::for_vm(3, "", "").uds_path, "v.sock");
    assert_eq!(VsockConfig::for_vm(3, "rel", "a/").uds_path, "rel/a/v.sock");
    assert_eq!(VsockConfig::for_vm(3, "/tmp//", "a").uds_path, "/tmp//a/v.sock");
    assert_eq!(VsockConfig::for_vm(3, "/tmp/é", "ü").uds_path, "/tmp/é/ü/v.sock");
}

#[test]
fn test_vm_error_messages() {
    assert_eq!(VmError::Create("x".into()).message(), "failed to create VM: x");
    assert_eq!(VmError::Start("x".into()).message(), "failed to start VM: x");
    assert_eq!(VmError::Stop("x".into()).message(), "failed to stop VM: x");
    assert_eq!(
        VmError::InvalidState {
            expected: "running".into(),
            actual: "Stopped".into()
        }
        .message(),
        "invalid VM state: expected running, got Stopped"
    );
    assert_eq!(VmError::Config("x".into()).message(), "configuration error: x");
    assert_eq!(VmError::Firepilot("x".into()).message(), "firepilot error: x");
    assert_eq!(VmError::Io("x".into()).message(), "I/O error: x");
    assert_eq!(
        VmError::Timeout(std::time::Duration::from_secs(10)).message(),
        "operation timed out after 10s"
    );
}

#[test]
fn test_boot_plan_order() {
    let id: u128 = 0x550e8400_e29b_41d4_a716_446655440000;
    let config = VmBuilder::new().chroot_path("/srv/vms").with_vsock(7).build_config();
    let plan = boot_plan(id, &config).unwrap();
    assert_eq!(plan.vm_id, "550e8400-e29b-41d4-a716-446655440000");
    assert_eq!(plan.directory, "/srv/vms/550e8400-e29b-41d4-a716-446655440000");
    assert_eq!(
        plan.socket_path,
        "/srv/vms/550e8400-e29b-41d4-a716-446655440000/firecracker.socket"
    );
    assert_eq!(
        plan.stages,
        vec![
            BootStage::EnsureDirectory,
            BootStage::Launch,
            BootStage::ConfigureMachine,
            BootStage::ConfigureVsock,
            BootStage::Start
        ]
    );
    let plain = boot_plan(id, &VmBuilder::new().build_config()).unwrap();
    assert_eq!(
        plain.stages,
        vec![
            BootStage::EnsureDirectory,
            BootStage::Launch,
            BootStage::ConfigureMachine,
            BootStage::Start
        ]
    );
}

#[test]
fn test_boot_plan_refuses_invalid_spec() {
    let config = VmBuilder::new().vcpus(0).build_config();
    match boot_plan(1, &config) {
        Err(VmError::Config(m)) => assert_eq!(m, "vcpu_count must be 1-32, got 0"),
        other => panic!("unexpected: {:?}", other.map(|p| p.stages)),
    }
}

#[test]
fn test_boot_stage_failures() {
    assert!(matches!(BootStage::EnsureDirectory.failure("d".into()), VmError::Io(m) if m == "d"));
    assert!(matches!(BootStage::Launch.failure("d".into()), VmError::Create(m) if m == "d"));
    assert!(
        matches!(BootStage::ConfigureMachine.failure("d".into()), VmError::Firepilot(m) if m == "d")
    );
    assert!(
        matches!(BootStage::ConfigureVsock.failure("d".into()), VmError::Firepilot(m) if m == "d")
    );
    assert!(matches!(BootStage::Start.failure("d".into()), VmError::Start(m) if m == "d"));
}

#[test]
fn test_control_responses() {
    assert_eq!(ControlCall::MachineConfig.path(), "/machine-config");
    assert_eq!(ControlCall::Vsock.path(), "/vsock");
    assert!(ControlCall::Vsock.check_response(204, "204 No Content", "").is_ok());
    assert!(ControlCall::Vsock.check_response(200, "200 OK", "").is_ok());
    assert!(ControlCall::Vsock.check_response(299, "299", "").is_ok());
    match ControlCall::MachineConfig.check_response(400, "400 Bad Request", "{\"fault\":\"x\"}") {
        Err(VmError::Firepilot(m)) => assert_eq!(
            m,
            "machine config failed with status 400 Bad Request: {\"fault\":\"x\"}"
        ),
        other => panic!("unexpected: {:?}", other),
    }
    match ControlCall::Vsock.check_response(199, "199", "b") {
        Err(VmError::Firepilot(m)) => {
            assert_eq!(m, "vsock configuration failed with status 199: b")
        }
        other => panic!("unexpected: {:?}", other),
    }
    assert!(ControlCall::Vsock.check_response(300, "300", "").is_err());
    match ControlCall::Vsock.transport_failure("refused") {
        VmError::Firepilot(m) => assert_eq!(m, "vsock configuration request failed: refused"),
        other => panic!("unexpected: {:?}", other),
    }
}

#[test]
fn test_vm_lifecycle_decisions() {
    let config = VmBuilder::new().chroot_path("/srv/vms").with_vsock(7).build_config();
    let mut vm = VirtualMachine::running(5, config, "handle");
    assert_eq!(vm.id(), 5);
    assert_eq!(vm.state(), VmState::Running);
    assert_eq!(*vm.machine(), "handle");
    assert_eq!(
        vm.socket_path().as_str(),
        "/srv/vms/00000000-0000-0000-0000-000000000005/firecracker.socket"
    );
    assert_eq!(vm.vsock_cid(), Some(7));
    assert_eq!(vm.vsock_uds_path().unwrap().as_str(), "/tmp/bouvet-vsock.sock");
    assert_eq!(vm.config().vcpu_count, 2);
    match vm.check_start() {
        Err(VmError::InvalidState { expected, actual }) => {
            assert_eq!(expected, "stopped or paused");
            assert_eq!(actual, "running");
        }
        other => panic!("unexpected: {:?}", other),
    }
    assert!(vm.check_stop().is_ok());
    assert!(matches!(vm.finish_stop(Err("boom".into())), Err(VmError::Stop(m)) if m == "boom"));
    assert_eq!(vm.state(), VmState::Running);
    assert!(vm.finish_stop(Ok(())).is_ok());
    assert_eq!(vm.state(), VmState::Stopped);
    match vm.check_stop() {
        Err(VmError::InvalidState { expected, actual }) => {
            assert_eq!(expected, "running");
            assert_eq!(actual, "Stopped");
        }
        other => panic!("unexpected: {:?}", other),
    }
    assert!(vm.check_start().is_ok());
    assert!(matches!(vm.finish_start(Err("no".into())), Err(VmError::Start(m)) if m == "no"));
    assert_eq!(vm.state(), VmState::Stopped);
    assert!(vm.finish_start(Ok(())).is_ok());
    assert_eq!(vm.state(), VmState::Running);
    assert!(
        matches!(vm.finish_kill(Err("no".into())), Err(VmError::Stop(m)) if m == "kill failed: no")
    );
    assert_eq!(vm.state(), VmState::Running);
    let (kill_first, handle) = vm.destroy();
    assert!(kill_first);
    assert_eq!(handle, "handle");

    let mut stopped = VirtualMachine::running(6, VmBuilder::new().build_config(), 0u8);
    assert!(stopped.finish_kill(Ok(())).is_ok());
    assert_eq!(stopped.vsock_cid(), None);
    assert!(stopped.vsock_uds_path().is_none());
    let (kill_first, _) = stopped.destroy();
    assert!(!kill_first);
}

#[test]
fn test_vm_state_labels() {
    assert_eq!(VmState::Creating.label(), "creating");
    assert_eq!(VmState::Running.label(), "running");
    assert_eq!(VmState::Paused.label(), "paused");
    assert_eq!(VmState::Stopped.label(), "stopped");
    assert_eq!(VmState::Paused.variant_name(), "Paused");
}
