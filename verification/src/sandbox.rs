//! A sandbox: one VM with one connected guest agent, under a stable identity.

use crate::config::{SandboxConfig, SandboxConfigView};
use crate::error::CoreError;
use crate::ids::{format_uuid, hyphenated, is_version_4, parse_uuid, parsed_uuid, random_uuid};
use crate::paths::{join, joined, lemma_joined_apart};
use crate::vm::builder::VmBuilder;
use crate::vm::config::{
    vsock_path, DriveConfig, DriveConfigView, MachineConfig, MachineConfigView, VsockConfig,
    VsockConfigView,
};
use crate::vm::error::VmError;
use vstd::prelude::*;

verus! {

/// Unique identifier of a sandbox: a 128-bit value, displayed as hexadecimal
/// digits with hyphens.
#[derive(Debug, Clone, Copy, PartialEq, Eq, Hash, Structural)]
pub struct SandboxId(pub u128);

impl SandboxId {
    /// Creates a new random sandbox ID: a freshly generated identifier of
    /// version 4.
    pub fn new() -> (id: SandboxId)
        ensures
            is_version_4(id.0),
    {
        SandboxId(random_uuid())
    }

    /// What holds of the text of every identifier: it is 36 characters long,
    /// holds no `/`, and reads back as the identifier.
    pub open spec fn canonical(self) -> bool {
        &&& hyphenated(self.0).len() == 36
        &&& !hyphenated(self.0).contains('/')
        &&& parsed_uuid(hyphenated(self.0)) == Some(self.0)
    }

    /// The canonical text of the identifier.
    pub fn to_string(&self) -> (s: String)
        ensures
            s@ == hyphenated(self.0),
            self.canonical(),
    {
        format_uuid(self.0)
    }

    /// Reads an identifier from its text; `None` where the text is not that
    /// of an identifier.
    pub fn parse(text: &str) -> (r: Option<SandboxId>)
        ensures
            match r {
                Some(id) => parsed_uuid(text@) == Some(id.0),
                None => parsed_uuid(text@) is None,
            },
    {
        match parse_uuid(text) {
            Some(value) => Some(SandboxId(value)),
            None => None,
        }
    }
}

impl Default for SandboxId {
    fn default() -> SandboxId {
        SandboxId::new()
    }
}

/// Different identifiers have different texts.
pub proof fn lemma_id_text_injective(a: SandboxId, b: SandboxId)
    requires
        a.canonical(),
        b.canonical(),
        a != b,
    ensures
        hyphenated(a.0) != hyphenated(b.0),
{
}

/// Current state of a sandbox.
#[derive(Debug, Clone, Copy, PartialEq, Eq, Structural)]
pub enum SandboxState {
    /// The sandbox is being created (VM booting, agent connecting).
    Creating,
    /// The sandbox is ready for commands.
    Ready,
    /// The sandbox is destroyed.
    Destroyed,
}

impl SandboxState {
    /// The name of the state.
    pub open spec fn name_text(self) -> Seq<char> {
        match self {
            SandboxState::Creating => "Creating"@,
            SandboxState::Ready => "Ready"@,
            SandboxState::Destroyed => "Destroyed"@,
        }
    }

    /// The name of the state.
    pub fn name(&self) -> (s: &'static str)
        ensures
            s@ == self.name_text(),
    {
        match self {
            SandboxState::Creating => "Creating",
            SandboxState::Ready => "Ready",
            SandboxState::Destroyed => "Destroyed",
        }
    }

    /// The name of the state, as it is displayed.
    pub fn to_string(&self) -> (s: String)
        ensures
            s@ == self.name_text(),
    {
        String::from_str(self.name())
    }
}

/// The directory of the sandbox `id` under `chroot_path`.
pub open spec fn sandbox_directory(chroot_path: Seq<char>, id: SandboxId) -> Seq<char> {
    joined(chroot_path, hyphenated(id.0))
}

/// The host socket of the sandbox `id` under `chroot_path`.
pub open spec fn sandbox_socket(chroot_path: Seq<char>, id: SandboxId) -> Seq<char> {
    vsock_path(chroot_path, hyphenated(id.0))
}

/// The machine spec that a sandbox configuration leads to: the default spec
/// with the resources, images and working directory of the configuration,
/// and with the sandbox's own channel.
pub open spec fn machine_spec(id: SandboxId, config: SandboxConfigView) -> MachineConfigView {
    MachineConfigView {
        vcpu_count: config.vcpu_count,
        memory_mib: config.memory_mib,
        kernel_path: config.kernel_path,
        root_drive: DriveConfigView {
            path_on_host: config.rootfs_path,
            ..DriveConfig::default_view()
        },
        chroot_path: config.chroot_path,
        vsock: Some(
            VsockConfigView {
                guest_cid: config.vsock_cid,
                uds_path: sandbox_socket(config.chroot_path, id),
            },
        ),
        ..MachineConfig::default_view()
    }
}

/// What building a sandbox takes: its identity, its own directory, its
/// channel, and the machine spec to boot.
#[derive(Debug)]
pub struct LaunchPlan {
    /// The identifier of the sandbox, which is that of its VM too.
    pub id: SandboxId,
    /// The sandbox's own directory, `<chroot>/<id>`.
    pub directory: String,
    /// The channel to the guest agent, on `<chroot>/<id>/v.sock`.
    pub vsock: VsockConfig,
    /// The machine spec, bound to the same channel.
    pub machine: MachineConfig,
    /// The stages, in the order in which they are to be carried out.
    pub stages: Vec<LaunchStage>,
}

/// The stages of building a sandbox, in their order: the directory, the VM,
/// the connection to the agent, and one ping.
pub open spec fn launch_stages() -> Seq<LaunchStage> {
    seq![LaunchStage::EnsureDirectory, LaunchStage::BootVm, LaunchStage::Connect, LaunchStage::Ping]
}

/// Plans the sandbox `id` from `config`.
pub fn plan_launch(id: SandboxId, config: &SandboxConfig) -> (plan: LaunchPlan)
    ensures
        plan.id == id,
        id.canonical(),
        plan.directory@ == sandbox_directory(config@.chroot_path, id),
        plan.vsock@ == (VsockConfigView {
            guest_cid: config.vsock_cid,
            uds_path: sandbox_socket(config@.chroot_path, id),
        }),
        plan.machine@ == machine_spec(id, config@),
        plan.stages@ == launch_stages(),
{
    let name: String = id.to_string();
    let vsock = VsockConfig::for_vm(config.vsock_cid, config.chroot_path.as_str(), name.as_str());
    let directory: String = join(config.chroot_path.as_str(), name.as_str());
    let machine = VmBuilder::new().vcpus(config.vcpu_count).memory_mib(config.memory_mib).kernel(
        config.kernel_path.as_str(),
    ).rootfs(config.rootfs_path.as_str()).chroot_path(
        config.chroot_path.as_str(),
    ).with_vsock_config(vsock.duplicate()).build_config();
    let mut stages: Vec<LaunchStage> = Vec::new();
    stages.push(LaunchStage::EnsureDirectory);
    stages.push(LaunchStage::BootVm);
    stages.push(LaunchStage::Connect);
    stages.push(LaunchStage::Ping);
    assert(stages@ =~= launch_stages());
    LaunchPlan { id, directory, vsock, machine, stages }
}

/// A valid sandbox configuration leads to a machine spec that can be booted.
pub proof fn lemma_valid_config_boots(id: SandboxId, config: SandboxConfigView)
    requires
        config.valid(),
    ensures
        machine_spec(id, config).valid(),
        machine_spec(id, config).defect() is None,
{
    let spec = machine_spec(id, config);
    assert(spec.drive_ids() =~= seq![spec.root_drive.drive_id]);
    assert forall|k: int| 0 <= k < 1 implies !#[trigger] spec.repeats_at(k) by {}
    assert(spec.drive_ids_unique());
}

/// Two sandboxes with different identifiers under one working directory have
/// different directories and different host sockets.
pub proof fn lemma_sandbox_paths_apart(chroot_path: Seq<char>, a: SandboxId, b: SandboxId)
    requires
        a.canonical(),
        b.canonical(),
        a != b,
    ensures
        sandbox_directory(chroot_path, a) != sandbox_directory(chroot_path, b),
        sandbox_socket(chroot_path, a) != sandbox_socket(chroot_path, b),
{
    reveal_strlit("v.sock");
    lemma_joined_apart(chroot_path, hyphenated(a.0), hyphenated(b.0), "v.sock"@);
}

/// A stage of building a sandbox.
#[derive(Debug, Clone, Copy, PartialEq, Eq, Structural)]
pub enum LaunchStage {
    /// Make sure that the sandbox's own directory exists.
    EnsureDirectory,
    /// Boot the VM.
    BootVm,
    /// Connect to the guest agent.
    Connect,
    /// Ping the agent once.
    Ping,
}

/// What is left to undo after a stage of building a sandbox failed.
#[derive(Debug, Clone, Copy, PartialEq, Eq, Structural)]
pub struct Cleanup {
    /// Whether a VM was booted and has to be destroyed.
    pub destroy_vm: bool,
    /// Whether the sandbox's directory has to be removed.
    pub remove_directory: bool,
}

impl LaunchStage {
    /// What a failure of the stage leaves behind: the directory in every
    /// case, and the VM once it was booted.
    pub fn cleanup(&self) -> (c: Cleanup)
        ensures
            c.remove_directory,
            c.destroy_vm == (*self == LaunchStage::Connect || *self == LaunchStage::Ping),
    {
        match self {
            LaunchStage::EnsureDirectory | LaunchStage::BootVm => Cleanup {
                destroy_vm: false,
                remove_directory: true,
            },
            LaunchStage::Connect | LaunchStage::Ping => Cleanup {
                destroy_vm: true,
                remove_directory: true,
            },
        }
    }
}

/// The error for a sandbox directory that could not be created.
pub fn directory_failure(detail: &str) -> (e: CoreError)
    ensures
        e matches CoreError::Connection(m) && m@ == "Failed to create vsock directory: "@
            + detail@,
{
    CoreError::Connection(String::from_str("Failed to create vsock directory: ").concat(detail))
}

/// The error for a VM that could not be booted.
pub fn boot_failure(cause: VmError) -> (e: CoreError)
    ensures
        e == CoreError::Vm(cause),
{
    CoreError::Vm(cause)
}

/// The error for a VM that was booted without a channel.
pub fn missing_vsock() -> (e: CoreError)
    ensures
        e matches CoreError::Connection(m) && m@ == "vsock not configured"@,
{
    CoreError::Connection(String::from_str("vsock not configured"))
}

/// What a try to reach the agent of a sandbox showed.
#[derive(Debug, Clone, Copy, PartialEq, Eq, Structural)]
pub enum ClientProbe {
    /// The agent client is in use by another caller.
    Busy,
    /// The agent answered a ping.
    Answered,
    /// The ping failed.
    Failed,
}

/// A sandbox that was built: its identity, the handle `H` on its VM and its
/// agent client, the configuration it was built from, its state, and the
/// time of its creation in milliseconds since the Unix epoch.
pub struct Sandbox<H> {
    id: SandboxId,
    handle: H,
    config: SandboxConfig,
    state: SandboxState,
    created_at: i64,
}

/// The content of a [`Sandbox`].
pub struct SandboxView<H> {
    pub id: SandboxId,
    pub handle: H,
    pub config: SandboxConfigView,
    pub state: SandboxState,
    pub created_at: i64,
}

impl<H> View for Sandbox<H> {
    type V = SandboxView<H>;

    closed spec fn view(&self) -> SandboxView<H> {
        SandboxView {
            id: self.id,
            handle: self.handle,
            config: self.config@,
            state: self.state,
            created_at: self.created_at,
        }
    }
}

/// What is left to do for a sandbox that was given up.
pub struct Teardown<H> {
    /// The identifier of the sandbox.
    pub id: SandboxId,
    /// The handle on the VM, which is to be destroyed.
    pub handle: H,
    /// The sandbox's own directory, which is to be removed.
    pub directory: String,
}

impl<H> Sandbox<H> {
    /// The sandbox `id` after its VM was booted and its agent answered a
    /// ping: ready for commands.
    pub fn ready(id: SandboxId, config: SandboxConfig, handle: H, created_at: i64) -> (s: Self)
        ensures
            s@ == (SandboxView {
                id,
                handle,
                config: config@,
                state: SandboxState::Ready,
                created_at,
            }),
    {
        Sandbox { id, handle, config, state: SandboxState::Ready, created_at }
    }

    /// The sandbox ID.
    pub fn id(&self) -> (id: SandboxId)
        ensures
            id == self@.id,
    {
        self.id
    }

    /// The current state.
    pub fn state(&self) -> (s: SandboxState)
        ensures
            s == self@.state,
    {
        self.state
    }

    /// The time of creation, in milliseconds since the Unix epoch.
    pub fn created_at(&self) -> (t: i64)
        ensures
            t == self@.created_at,
    {
        self.created_at
    }

    /// The configuration that the sandbox was built from.
    pub fn config(&self) -> (c: &SandboxConfig)
        ensures
            c@ == self@.config,
    {
        &self.config
    }

    /// The handle on the VM and the agent client.
    pub fn handle(&self) -> (h: &H)
        ensures
            *h == self@.handle,
    {
        &self.handle
    }

    /// Whether the sandbox takes commands: only a ready one does. Any other
    /// state is refused with an error that names it.
    pub fn ensure_ready(&self) -> (r: Result<(), CoreError>)
        ensures
            r is Ok <==> self@.state == SandboxState::Ready,
            r matches Err(e) ==> e matches CoreError::InvalidState { expected, actual }
                && expected@ == "Ready"@ && actual@ == self@.state.name_text(),
    {
        if self.state != SandboxState::Ready {
            Err(
                CoreError::InvalidState {
                    expected: String::from_str("Ready"),
                    actual: self.state.to_string(),
                },
            )
        } else {
            Ok(())
        }
    }

    /// The handle to run an operation with, which a sandbox gives only while
    /// it is ready.
    pub fn handle_if_ready(&self) -> (r: Result<&H, CoreError>)
        ensures
            r is Ok <==> self@.state == SandboxState::Ready,
            match r {
                Ok(h) => *h == self@.handle,
                Err(e) => e matches CoreError::InvalidState { expected, actual } && expected@
                    == "Ready"@ && actual@ == self@.state.name_text(),
            },
    {
        match self.ensure_ready() {
            Ok(_) => Ok(&self.handle),
            Err(e) => Err(e),
        }
    }

    /// Whether a health check has to reach for the agent: a sandbox that is
    /// not ready is unhealthy without asking.
    pub fn wants_probe(&self) -> (b: bool)
        ensures
            b == (self@.state == SandboxState::Ready),
    {
        self.state == SandboxState::Ready
    }

    /// Whether the sandbox is healthy, given what a try to reach its agent
    /// showed: it is when it is ready and the ping did not fail. A client in
    /// use counts as healthy.
    pub fn is_healthy(&self, probe: ClientProbe) -> (b: bool)
        ensures
            b == (self@.state == SandboxState::Ready && probe != ClientProbe::Failed),
    {
        self.state == SandboxState::Ready && probe != ClientProbe::Failed
    }

    /// Marks the sandbox as destroyed, for good: there is no way back from
    /// this state, and from now on the sandbox takes no commands.
    pub fn retire(&mut self)
        ensures
            final(self)@ == (SandboxView { state: SandboxState::Destroyed, ..old(self)@ }),
    {
        self.state = SandboxState::Destroyed;
    }

    /// Gives up the sandbox: hands out the handle on its VM, which is to be
    /// stopped, and its directory, which is to be removed.
    pub fn destroy(self) -> (t: Teardown<H>)
        ensures
            t.id == self@.id,
            t.handle == self@.handle,
            t.directory@ == sandbox_directory(self@.config.chroot_path, self@.id),
            self@.id.canonical(),
    {
        let name: String = self.id.to_string();
        let directory: String = join(self.config.chroot_path.as_str(), name.as_str());
        Teardown { id: self.id, handle: self.handle, directory }
    }
}

} // verus!
