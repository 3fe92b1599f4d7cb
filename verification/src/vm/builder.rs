//! Builder for machine specs.

use crate::vm::config::{
    drive_views, DriveConfig, DriveConfigView, MachineConfig, MachineConfigView, NetworkConfig,
    NetworkConfigView, VsockConfig, VsockConfigView,
};
use vstd::prelude::*;

verus! {

/// Fluent builder of a [`MachineConfig`]. It starts from the default spec;
/// each method replaces one part of it and leaves the rest as it was.
#[derive(Debug, Clone)]
pub struct VmBuilder {
    config: MachineConfig,
}

impl View for VmBuilder {
    type V = MachineConfigView;

    /// The spec built so far.
    closed spec fn view(&self) -> MachineConfigView {
        self.config@
    }
}

impl Default for VmBuilder {
    fn default() -> (r: Self)
        ensures
            r@ == MachineConfig::default_view(),
    {
        VmBuilder::new()
    }
}

impl VmBuilder {
    /// Creates a builder with the default configuration.
    pub fn new() -> (r: Self)
        ensures
            r@ == MachineConfig::default_view(),
    {
        VmBuilder { config: MachineConfig::default() }
    }

    /// Sets the number of virtual CPUs.
    pub fn vcpus(self, count: u8) -> (r: Self)
        ensures
            r@ == (MachineConfigView { vcpu_count: count, ..self@ }),
    {
        let mut b = self;
        b.config.vcpu_count = count;
        b
    }

    /// Sets the memory size in MiB.
    pub fn memory_mib(self, mib: u32) -> (r: Self)
        ensures
            r@ == (MachineConfigView { memory_mib: mib, ..self@ }),
    {
        let mut b = self;
        b.config.memory_mib = mib;
        b
    }

    /// Sets the path to the kernel image.
    pub fn kernel(self, path: &str) -> (r: Self)
        ensures
            r@ == (MachineConfigView { kernel_path: path@, ..self@ }),
    {
        let mut b = self;
        b.config.kernel_path = String::from_str(path);
        b
    }

    /// Sets the kernel boot arguments.
    pub fn boot_args(self, args: &str) -> (r: Self)
        ensures
            r@ == (MachineConfigView { boot_args: args@, ..self@ }),
    {
        let mut b = self;
        b.config.boot_args = String::from_str(args);
        b
    }

    /// Sets the path to the root filesystem image.
    pub fn rootfs(self, path: &str) -> (r: Self)
        ensures
            r@ == (MachineConfigView {
                root_drive: DriveConfigView { path_on_host: path@, ..self@.root_drive },
                ..self@
            }),
    {
        let mut b = self;
        b.config.root_drive.path_on_host = String::from_str(path);
        b
    }

    /// Makes the root drive read-only.
    pub fn rootfs_read_only(self) -> (r: Self)
        ensures
            r@ == (MachineConfigView {
                root_drive: DriveConfigView { is_read_only: true, ..self@.root_drive },
                ..self@
            }),
    {
        let mut b = self;
        b.config.root_drive.is_read_only = true;
        b
    }

    /// Adds an extra drive, writable and not the root device, after those
    /// added before.
    pub fn with_drive(self, drive_id: &str, path: &str) -> (r: Self)
        ensures
            r@ == (MachineConfigView {
                extra_drives: self@.extra_drives.push(
                    DriveConfigView {
                        drive_id: drive_id@,
                        path_on_host: path@,
                        is_root_device: false,
                        is_read_only: false,
                    },
                ),
                ..self@
            }),
    {
        let mut b = self;
        let ghost before = b.config.extra_drives@;
        let drive = DriveConfig {
            drive_id: String::from_str(drive_id),
            path_on_host: String::from_str(path),
            is_root_device: false,
            is_read_only: false,
        };
        b.config.extra_drives.push(drive);
        assert(drive_views(b.config.extra_drives@) =~= drive_views(before).push(drive@));
        b
    }

    /// Configures the network interface `eth0` on the given tap device.
    pub fn with_network(self, host_dev: &str) -> (r: Self)
        ensures
            r@ == (MachineConfigView {
                network: Some(
                    NetworkConfigView { host_dev_name: host_dev@, ..NetworkConfig::default_view() },
                ),
                ..self@
            }),
    {
        let mut b = self;
        let mut network = NetworkConfig::default();
        network.host_dev_name = String::from_str(host_dev);
        b.config.network = Some(network);
        b
    }

    /// Configures the network interface with full options.
    pub fn with_network_config(self, config: NetworkConfig) -> (r: Self)
        ensures
            r@ == (MachineConfigView { network: Some(config@), ..self@ }),
    {
        let mut b = self;
        b.config.network = Some(config);
        b
    }

    /// Configures the host-to-guest channel with the given guest context ID,
    /// on the default socket path.
    pub fn with_vsock(self, cid: u32) -> (r: Self)
        ensures
            r@ == (MachineConfigView {
                vsock: Some(VsockConfigView { guest_cid: cid, ..VsockConfig::default_view() }),
                ..self@
            }),
    {
        let mut b = self;
        let mut vsock = VsockConfig::default();
        vsock.guest_cid = cid;
        b.config.vsock = Some(vsock);
        b
    }

    /// Configures the host-to-guest channel with full options.
    pub fn with_vsock_config(self, config: VsockConfig) -> (r: Self)
        ensures
            r@ == (MachineConfigView { vsock: Some(config@), ..self@ }),
    {
        let mut b = self;
        b.config.vsock = Some(config);
        b
    }

    /// Sets the path to the hypervisor binary.
    pub fn firecracker_path(self, path: &str) -> (r: Self)
        ensures
            r@ == (MachineConfigView { firecracker_path: path@, ..self@ }),
    {
        let mut b = self;
        b.config.firecracker_path = String::from_str(path);
        b
    }

    /// Sets the working directory under which the VM's own directory lies.
    pub fn chroot_path(self, path: &str) -> (r: Self)
        ensures
            r@ == (MachineConfigView { chroot_path: path@, ..self@ }),
    {
        let mut b = self;
        b.config.chroot_path = String::from_str(path);
        b
    }

    /// Hands out the spec built so far.
    pub fn build_config(self) -> (r: MachineConfig)
        ensures
            r@ == self@,
    {
        self.config
    }
}

} // verus!
