//! Configuration of a MicroVM: the machine spec and its parts.

use crate::paths::{join, joined};
use crate::text::{decimal, decimal_u64};
use crate::vm::error::VmError;
use vstd::prelude::*;

verus! {

/// Configuration of a block device.
#[derive(Debug, Clone)]
pub struct DriveConfig {
    /// Unique drive identifier.
    pub drive_id: String,
    /// Path to the drive image on the host.
    pub path_on_host: String,
    /// Whether this is the root device.
    pub is_root_device: bool,
    /// Whether the drive is read-only.
    pub is_read_only: bool,
}

/// The content of a [`DriveConfig`].
pub struct DriveConfigView {
    pub drive_id: Seq<char>,
    pub path_on_host: Seq<char>,
    pub is_root_device: bool,
    pub is_read_only: bool,
}

impl View for DriveConfig {
    type V = DriveConfigView;

    open spec fn view(&self) -> DriveConfigView {
        DriveConfigView {
            drive_id: self.drive_id@,
            path_on_host: self.path_on_host@,
            is_root_device: self.is_root_device,
            is_read_only: self.is_read_only,
        }
    }
}

impl DriveConfig {
    /// The root drive that a machine spec starts with.
    pub open spec fn default_view() -> DriveConfigView {
        DriveConfigView {
            drive_id: "rootfs"@,
            path_on_host: "/var/lib/bouvet/images/debian.ext4"@,
            is_root_device: true,
            is_read_only: false,
        }
    }

    /// A copy with the same content.
    pub fn duplicate(&self) -> (r: Self)
        ensures
            r@ == self@,
    {
        DriveConfig {
            drive_id: self.drive_id.clone(),
            path_on_host: self.path_on_host.clone(),
            is_root_device: self.is_root_device,
            is_read_only: self.is_read_only,
        }
    }
}

impl Default for DriveConfig {
    fn default() -> (r: Self)
        ensures
            r@ == DriveConfig::default_view(),
    {
        DriveConfig {
            drive_id: String::from_str("rootfs"),
            path_on_host: String::from_str("/var/lib/bouvet/images/debian.ext4"),
            is_root_device: true,
            is_read_only: false,
        }
    }
}

/// Configuration of a network interface.
#[derive(Debug, Clone)]
pub struct NetworkConfig {
    /// Network interface ID.
    pub iface_id: String,
    /// Host device name (tap device).
    pub host_dev_name: String,
    /// Guest MAC address; chosen by the hypervisor where there is none.
    pub guest_mac: Option<String>,
}

/// The content of a [`NetworkConfig`].
pub struct NetworkConfigView {
    pub iface_id: Seq<char>,
    pub host_dev_name: Seq<char>,
    pub guest_mac: Option<Seq<char>>,
}

impl View for NetworkConfig {
    type V = NetworkConfigView;

    open spec fn view(&self) -> NetworkConfigView {
        NetworkConfigView {
            iface_id: self.iface_id@,
            host_dev_name: self.host_dev_name@,
            guest_mac: match self.guest_mac {
                Some(mac) => Some(mac@),
                None => None,
            },
        }
    }
}

impl NetworkConfig {
    /// The interface `eth0` on the tap device `tap0`.
    pub open spec fn default_view() -> NetworkConfigView {
        NetworkConfigView { iface_id: "eth0"@, host_dev_name: "tap0"@, guest_mac: None }
    }

    /// A copy with the same content.
    pub fn duplicate(&self) -> (r: Self)
        ensures
            r@ == self@,
    {
        NetworkConfig {
            iface_id: self.iface_id.clone(),
            host_dev_name: self.host_dev_name.clone(),
            guest_mac: match &self.guest_mac {
                Some(mac) => Some(mac.clone()),
                None => None,
            },
        }
    }
}

impl Default for NetworkConfig {
    fn default() -> (r: Self)
        ensures
            r@ == NetworkConfig::default_view(),
    {
        NetworkConfig {
            iface_id: String::from_str("eth0"),
            host_dev_name: String::from_str("tap0"),
            guest_mac: None,
        }
    }
}

/// Configuration of the host-to-guest channel (vsock).
#[derive(Debug, Clone)]
pub struct VsockConfig {
    /// Guest context ID; the values 0 to 2 are reserved.
    pub guest_cid: u32,
    /// Path of the Unix-domain socket on the host.
    pub uds_path: String,
}

/// The content of a [`VsockConfig`].
pub struct VsockConfigView {
    pub guest_cid: u32,
    pub uds_path: Seq<char>,
}

impl View for VsockConfig {
    type V = VsockConfigView;

    open spec fn view(&self) -> VsockConfigView {
        VsockConfigView { guest_cid: self.guest_cid, uds_path: self.uds_path@ }
    }
}

/// The name of the channel's socket inside a VM's directory.
pub open spec fn vsock_socket_name() -> Seq<char> {
    "v.sock"@
}

/// The socket path of the VM `vm_id` under `chroot_path`.
pub open spec fn vsock_path(chroot_path: Seq<char>, vm_id: Seq<char>) -> Seq<char> {
    joined(joined(chroot_path, vm_id), vsock_socket_name())
}

impl VsockConfig {
    /// The context ID 3 on `/tmp/bouvet-vsock.sock`.
    pub open spec fn default_view() -> VsockConfigView {
        VsockConfigView { guest_cid: 3, uds_path: "/tmp/bouvet-vsock.sock"@ }
    }

    /// The channel of one VM: its socket lies in the VM's own directory,
    /// `<chroot_path>/<vm_id>/v.sock`.
    pub fn for_vm(cid: u32, chroot_path: &str, vm_id: &str) -> (r: Self)
        ensures
            r.guest_cid == cid,
            r.uds_path@ == vsock_path(chroot_path@, vm_id@),
    {
        let dir: String = join(chroot_path, vm_id);
        VsockConfig { guest_cid: cid, uds_path: join(dir.as_str(), "v.sock") }
    }

    /// A copy with the same content.
    pub fn duplicate(&self) -> (r: Self)
        ensures
            r@ == self@,
    {
        VsockConfig { guest_cid: self.guest_cid, uds_path: self.uds_path.clone() }
    }
}

impl Default for VsockConfig {
    fn default() -> (r: Self)
        ensures
            r@ == VsockConfig::default_view(),
    {
        VsockConfig { guest_cid: 3, uds_path: String::from_str("/tmp/bouvet-vsock.sock") }
    }
}

/// Configuration for creating a new MicroVM.
#[derive(Debug, Clone)]
pub struct MachineConfig {
    /// Number of virtual CPUs (1 to 32).
    pub vcpu_count: u8,
    /// Memory size in MiB (at least 128).
    pub memory_mib: u32,
    /// Path to the kernel image.
    pub kernel_path: String,
    /// Kernel boot arguments.
    pub boot_args: String,
    /// Root filesystem drive.
    pub root_drive: DriveConfig,
    /// Additional drives.
    pub extra_drives: Vec<DriveConfig>,
    /// Network configuration.
    pub network: Option<NetworkConfig>,
    /// Host-to-guest channel.
    pub vsock: Option<VsockConfig>,
    /// Path to the hypervisor binary.
    pub firecracker_path: String,
    /// Working directory for VM sockets and state.
    pub chroot_path: String,
}

/// The content of a [`MachineConfig`].
pub struct MachineConfigView {
    pub vcpu_count: u8,
    pub memory_mib: u32,
    pub kernel_path: Seq<char>,
    pub boot_args: Seq<char>,
    pub root_drive: DriveConfigView,
    pub extra_drives: Seq<DriveConfigView>,
    pub network: Option<NetworkConfigView>,
    pub vsock: Option<VsockConfigView>,
    pub firecracker_path: Seq<char>,
    pub chroot_path: Seq<char>,
}

/// The contents of a list of drives.
pub open spec fn drive_views(drives: Seq<DriveConfig>) -> Seq<DriveConfigView> {
    Seq::new(drives.len(), |i: int| drives[i]@)
}

impl View for MachineConfig {
    type V = MachineConfigView;

    open spec fn view(&self) -> MachineConfigView {
        MachineConfigView {
            vcpu_count: self.vcpu_count,
            memory_mib: self.memory_mib,
            kernel_path: self.kernel_path@,
            boot_args: self.boot_args@,
            root_drive: self.root_drive@,
            extra_drives: drive_views(self.extra_drives@),
            network: match self.network {
                Some(n) => Some(n@),
                None => None,
            },
            vsock: match self.vsock {
                Some(v) => Some(v@),
                None => None,
            },
            firecracker_path: self.firecracker_path@,
            chroot_path: self.chroot_path@,
        }
    }
}

impl MachineConfigView {
    /// The drive identifiers in order: the root drive's, then those of the
    /// extra drives.
    pub open spec fn drive_ids(self) -> Seq<Seq<char>> {
        seq![self.root_drive.drive_id] + Seq::new(
            self.extra_drives.len(),
            |i: int| self.extra_drives[i].drive_id,
        )
    }

    /// Whether the drive at `j` bears the identifier of an earlier drive.
    pub open spec fn repeats_at(self, j: int) -> bool {
        exists|i: int| 0 <= i < j && self.drive_ids()[i] == #[trigger] self.drive_ids()[j]
    }

    /// Whether no drive before `j` repeats an identifier.
    pub open spec fn distinct_before(self, j: int) -> bool {
        forall|k: int| 0 <= k < j ==> !#[trigger] self.repeats_at(k)
    }

    /// The position of the first drive that repeats an identifier, where
    /// there is one.
    pub open spec fn first_repeat(self) -> int {
        choose|j: int|
            0 <= j < self.drive_ids().len() && self.distinct_before(j) && self.repeats_at(j)
    }

    /// Whether the drive identifiers are pairwise different.
    pub open spec fn drive_ids_unique(self) -> bool {
        self.distinct_before(self.drive_ids().len() as int)
    }

    /// Whether the spec can be booted: 1 to 32 vCPUs, at least 128 MiB of
    /// memory, a context ID above 2 where there is a channel, and drive
    /// identifiers that are pairwise different.
    pub open spec fn valid(self) -> bool {
        &&& 1 <= self.vcpu_count <= 32
        &&& self.memory_mib >= 128
        &&& (self.vsock matches Some(v) ==> v.guest_cid > 2)
        &&& self.drive_ids_unique()
    }

    /// What is wrong with the spec, in the order in which the rules are
    /// tried; `None` for a valid one.
    pub open spec fn defect(self) -> Option<Seq<char>> {
        if self.vcpu_count == 0 || self.vcpu_count > 32 {
            Some("vcpu_count must be 1-32, got "@ + decimal(self.vcpu_count as nat))
        } else if self.memory_mib < 128 {
            Some("memory_mib must be at least 128, got "@ + decimal(self.memory_mib as nat))
        } else if self.vsock is Some && self.vsock->0.guest_cid <= 2 {
            Some("vsock guest_cid must be > 2, got "@ + decimal(self.vsock->0.guest_cid as nat))
        } else if !self.drive_ids_unique() {
            Some("duplicate drive_id: "@ + self.drive_ids()[self.first_repeat()])
        } else {
            None
        }
    }
}

/// A machine spec has a defect exactly when it is not valid, and the defect
/// of a spec whose drives repeat an identifier names the first that does.
pub proof fn lemma_defect_iff_invalid(spec: MachineConfigView)
    ensures
        spec.defect() is None <==> spec.valid(),
        !spec.drive_ids_unique() ==> {
            &&& 1 <= spec.first_repeat() < spec.drive_ids().len()
            &&& spec.repeats_at(spec.first_repeat())
            &&& spec.distinct_before(spec.first_repeat())
        },
{
    if !spec.drive_ids_unique() {
        lemma_first_repeat_exists(spec, spec.drive_ids().len() as int);
        assert(!spec.repeats_at(0));
    }
}

/// The drive identifiers are unique exactly when no two drives bear the
/// same identifier.
pub proof fn lemma_unique_means_no_duplicates(spec: MachineConfigView)
    ensures
        spec.drive_ids_unique() <==> spec.drive_ids().no_duplicates(),
{
    let ids = spec.drive_ids();
    if spec.drive_ids_unique() {
        assert forall|i: int, j: int| 0 <= i < ids.len() && 0 <= j < ids.len() && i != j implies ids[i]
            != ids[j] by {
            if i < j {
                assert(!spec.repeats_at(j));
            } else {
                assert(!spec.repeats_at(i));
            }
        }
    }
    if ids.no_duplicates() {
        assert forall|k: int| 0 <= k < ids.len() implies !#[trigger] spec.repeats_at(k) by {
            if spec.repeats_at(k) {
                let i = choose|i: int| 0 <= i < k && ids[i] == ids[k];
                assert(ids[i] != ids[k]);
            }
        }
    }
}

/// Where the drives before `upto` repeat an identifier, there is a first
/// that does.
proof fn lemma_first_repeat_exists(spec: MachineConfigView, upto: int)
    requires
        0 <= upto <= spec.drive_ids().len(),
        !spec.distinct_before(upto),
    ensures
        exists|j: int|
            0 <= j < upto && spec.distinct_before(j) && #[trigger] spec.repeats_at(j),
    decreases upto,
{
    if upto > 0 {
        if spec.distinct_before(upto - 1) {
            assert(spec.repeats_at(upto - 1)) by {
                if !spec.repeats_at(upto - 1) {
                    assert forall|k: int| 0 <= k < upto implies !#[trigger] spec.repeats_at(k) by {
                        if k < upto - 1 {
                        }
                    }
                }
            }
        } else {
            lemma_first_repeat_exists(spec, upto - 1);
        }
    }
}

impl MachineConfig {
    /// The spec that a builder starts from.
    pub open spec fn default_view() -> MachineConfigView {
        MachineConfigView {
            vcpu_count: 2,
            memory_mib: 256,
            kernel_path: "/var/lib/bouvet/kernel/vmlinux"@,
            boot_args: "console=ttyS0 reboot=k panic=1 pci=off"@,
            root_drive: DriveConfig::default_view(),
            extra_drives: Seq::empty(),
            network: None,
            vsock: None,
            firecracker_path: "/usr/local/bin/firecracker"@,
            chroot_path: "/tmp/bouvet"@,
        }
    }

    /// Validates the configuration: `Ok` exactly for a valid spec, and
    /// otherwise a configuration error that names the first rule broken.
    #[verifier::loop_isolation(false)]
    pub fn validate(&self) -> (r: Result<(), VmError>)
        ensures
            r is Ok <==> self@.valid(),
            match r {
                Ok(_) => self@.defect() is None,
                Err(e) => e matches VmError::Config(m) && self@.defect() == Some(m@),
            },
    {
        if self.vcpu_count == 0 || self.vcpu_count > 32 {
            let got: String = decimal_u64(self.vcpu_count as u64);
            return Err(
                VmError::Config(
                    String::from_str("vcpu_count must be 1-32, got ").concat(got.as_str()),
                ),
            );
        }
        if self.memory_mib < 128 {
            let got: String = decimal_u64(self.memory_mib as u64);
            return Err(
                VmError::Config(
                    String::from_str("memory_mib must be at least 128, got ").concat(got.as_str()),
                ),
            );
        }
        if let Some(vsock) = &self.vsock {
            if vsock.guest_cid <= 2 {
                let got: String = decimal_u64(vsock.guest_cid as u64);
                return Err(
                    VmError::Config(
                        String::from_str("vsock guest_cid must be > 2, got ").concat(got.as_str()),
                    ),
                );
            }
        }
        let ghost ids = self@.drive_ids();
        let n: usize = self.extra_drives.len();
        let mut j: usize = 0;
        assert(!self@.repeats_at(0));
        while j < n
            invariant
                n == self.extra_drives.len(),
                ids == self@.drive_ids(),
                ids.len() == n + 1,
                0 <= j <= n,
                self@.distinct_before(j as int + 1),
            decreases n - j,
        {
            let candidate: &DriveConfig = &self.extra_drives[j];
            assert(ids[j as int + 1] == candidate.drive_id@);
            let mut seen: bool = candidate.drive_id == self.root_drive.drive_id;
            assert(ids[0] == self.root_drive.drive_id@);
            let mut i: usize = 0;
            while i < j && !seen
                invariant
                    n == self.extra_drives.len(),
                    ids == self@.drive_ids(),
                    ids.len() == n + 1,
                    0 <= i <= j < n,
                    candidate == &self.extra_drives[j as int],
                    seen ==> self@.repeats_at(j as int + 1),
                    !seen ==> forall|k: int| 0 <= k < i + 1 ==> #[trigger] ids[k] != ids[j as int + 1],
                decreases j - i,
            {
                let earlier: &DriveConfig = &self.extra_drives[i];
                assert(ids[i as int + 1] == earlier.drive_id@);
                if candidate.drive_id == earlier.drive_id {
                    seen = true;
                }
                i = i + 1;
            }
            if seen {
                proof {
                    let first = self@.first_repeat();
                    assert(self@.distinct_before(j as int + 1) && self@.repeats_at(j as int + 1));
                    assert(!self@.drive_ids_unique());
                    // The first repeat is this one: every earlier drive is
                    // known not to repeat, and none after it can be first.
                    assert(first == j as int + 1) by {
                        if first < j as int + 1 {
                            assert(!self@.repeats_at(first));
                        } else if first > j as int + 1 {
                            assert(!self@.repeats_at(j as int + 1));
                        }
                    }
                }
                return Err(
                    VmError::Config(
                        String::from_str("duplicate drive_id: ").concat(
                            candidate.drive_id.as_str(),
                        ),
                    ),
                );
            }
            assert(!self@.repeats_at(j as int + 1));
            j = j + 1;
        }
        assert(self@.drive_ids_unique());
        Ok(())
    }

    /// A copy with the same content.
    pub fn duplicate(&self) -> (r: Self)
        ensures
            r@ == self@,
    {
        let mut extra: Vec<DriveConfig> = Vec::new();
        let n: usize = self.extra_drives.len();
        let mut i: usize = 0;
        while i < n
            invariant
                n == self.extra_drives.len(),
                0 <= i <= n,
                extra.len() == i,
                forall|k: int| 0 <= k < i ==> extra[k]@ == self.extra_drives[k]@,
            decreases n - i,
        {
            extra.push(self.extra_drives[i].duplicate());
            i = i + 1;
        }
        assert(drive_views(extra@) =~= drive_views(self.extra_drives@));
        MachineConfig {
            vcpu_count: self.vcpu_count,
            memory_mib: self.memory_mib,
            kernel_path: self.kernel_path.clone(),
            boot_args: self.boot_args.clone(),
            root_drive: self.root_drive.duplicate(),
            extra_drives: extra,
            network: match &self.network {
                Some(n) => Some(n.duplicate()),
                None => None,
            },
            vsock: match &self.vsock {
                Some(v) => Some(v.duplicate()),
                None => None,
            },
            firecracker_path: self.firecracker_path.clone(),
            chroot_path: self.chroot_path.clone(),
        }
    }
}

impl Default for MachineConfig {
    fn default() -> (r: Self)
        ensures
            r@ == MachineConfig::default_view(),
    {
        let r = MachineConfig {
            vcpu_count: 2,
            memory_mib: 256,
            kernel_path: String::from_str("/var/lib/bouvet/kernel/vmlinux"),
            boot_args: String::from_str("console=ttyS0 reboot=k panic=1 pci=off"),
            root_drive: DriveConfig::default(),
            extra_drives: Vec::new(),
            network: None,
            vsock: None,
            firecracker_path: String::from_str("/usr/local/bin/firecracker"),
            chroot_path: String::from_str("/tmp/bouvet"),
        };
        assert(drive_views(r.extra_drives@) =~= Seq::empty());
        r
    }
}

} // verus!
