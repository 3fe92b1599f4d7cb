//! The driver's side of a MicroVM: the ordered boot plan that a machine spec
//! leads to, and the lifecycle of the handle that owns the hypervisor.
//!
//! The calls on the hypervisor are made by the caller. What is decided here
//! is what to do, in which order, and what each outcome means.

use crate::ids::{format_uuid, hyphenated};
use crate::paths::{join, joined};
use crate::vm::config::{MachineConfig, MachineConfigView};
use crate::vm::error::VmError;
use vstd::prelude::*;

verus! {

/// Current state of a VM.
#[derive(Debug, Clone, Copy, PartialEq, Eq, Structural)]
pub enum VmState {
    /// The VM is being created.
    Creating,
    /// The VM is running.
    Running,
    /// The VM is paused.
    Paused,
    /// The VM is stopped.
    Stopped,
}

impl VmState {
    /// The state in lower case, as it is displayed.
    pub open spec fn label_text(self) -> Seq<char> {
        match self {
            VmState::Creating => "creating"@,
            VmState::Running => "running"@,
            VmState::Paused => "paused"@,
            VmState::Stopped => "stopped"@,
        }
    }

    /// The name of the variant.
    pub open spec fn variant_text(self) -> Seq<char> {
        match self {
            VmState::Creating => "Creating"@,
            VmState::Running => "Running"@,
            VmState::Paused => "Paused"@,
            VmState::Stopped => "Stopped"@,
        }
    }

    /// The state in lower case, as it is displayed.
    pub fn label(&self) -> (s: &'static str)
        ensures
            s@ == self.label_text(),
    {
        match self {
            VmState::Creating => "creating",
            VmState::Running => "running",
            VmState::Paused => "paused",
            VmState::Stopped => "stopped",
        }
    }

    /// The name of the variant.
    pub fn variant_name(&self) -> (s: &'static str)
        ensures
            s@ == self.variant_text(),
    {
        match self {
            VmState::Creating => "Creating",
            VmState::Running => "Running",
            VmState::Paused => "Paused",
            VmState::Stopped => "Stopped",
        }
    }
}

/// A stage of booting a VM.
#[derive(Debug, Clone, Copy, PartialEq, Eq, Structural)]
pub enum BootStage {
    /// Make sure that the VM's own directory exists.
    EnsureDirectory,
    /// Launch the hypervisor on the kernel, drives and network interface of
    /// the spec, and wait for its control socket.
    Launch,
    /// `PUT /machine-config`.
    ConfigureMachine,
    /// `PUT /vsock`.
    ConfigureVsock,
    /// Issue the boot action.
    Start,
}

/// The stages of a boot in their order. The channel is configured only where
/// the spec has one, and then before the boot action.
pub open spec fn boot_stages(with_vsock: bool) -> Seq<BootStage> {
    if with_vsock {
        seq![
            BootStage::EnsureDirectory,
            BootStage::Launch,
            BootStage::ConfigureMachine,
            BootStage::ConfigureVsock,
            BootStage::Start,
        ]
    } else {
        seq![
            BootStage::EnsureDirectory,
            BootStage::Launch,
            BootStage::ConfigureMachine,
            BootStage::Start,
        ]
    }
}

/// The directory of the VM `id` under `chroot_path`.
pub open spec fn vm_directory(chroot_path: Seq<char>, id: u128) -> Seq<char> {
    joined(chroot_path, hyphenated(id))
}

/// The control socket of the VM `id` under `chroot_path`.
pub open spec fn control_socket(chroot_path: Seq<char>, id: u128) -> Seq<char> {
    joined(vm_directory(chroot_path, id), "firecracker.socket"@)
}

impl BootStage {
    /// The error for a stage that failed with `detail`: an I/O error for the
    /// directory, a creation error for the launch, a start error for the boot
    /// action, and an error of the control API for the two calls on it.
    pub fn failure(&self, detail: String) -> (e: VmError)
        ensures
            match *self {
                BootStage::EnsureDirectory => e matches VmError::Io(m) && m@ == detail@,
                BootStage::Launch => e matches VmError::Create(m) && m@ == detail@,
                BootStage::ConfigureMachine => e matches VmError::Firepilot(m) && m@ == detail@,
                BootStage::ConfigureVsock => e matches VmError::Firepilot(m) && m@ == detail@,
                BootStage::Start => e matches VmError::Start(m) && m@ == detail@,
            },
    {
        match self {
            BootStage::EnsureDirectory => VmError::Io(detail),
            BootStage::Launch => VmError::Create(detail),
            BootStage::ConfigureMachine => VmError::Firepilot(detail),
            BootStage::ConfigureVsock => VmError::Firepilot(detail),
            BootStage::Start => VmError::Start(detail),
        }
    }
}

/// A part of what the hypervisor is launched on.
#[derive(Debug, Clone, Copy, PartialEq, Eq, Structural)]
pub enum LaunchPart {
    /// The kernel image and the boot arguments.
    Kernel,
    /// The root drive.
    RootDrive,
    /// One of the extra drives.
    ExtraDrive,
    /// The network interface.
    Network,
    /// The hypervisor binary and the working directory.
    Executor,
}

impl LaunchPart {
    /// What the part is named in error messages.
    pub open spec fn label(self) -> Seq<char> {
        match self {
            LaunchPart::Kernel => "kernel config: "@,
            LaunchPart::RootDrive => "drive config: "@,
            LaunchPart::ExtraDrive => "extra drive config: "@,
            LaunchPart::Network => "network config: "@,
            LaunchPart::Executor => "executor config: "@,
        }
    }

    /// The error for a part that the driver library refused: a configuration
    /// error that names the part.
    pub fn failure(&self, detail: &str) -> (e: VmError)
        ensures
            e matches VmError::Config(m) && m@ == self.label() + detail@,
    {
        let label: &str = match self {
            LaunchPart::Kernel => "kernel config: ",
            LaunchPart::RootDrive => "drive config: ",
            LaunchPart::ExtraDrive => "extra drive config: ",
            LaunchPart::Network => "network config: ",
            LaunchPart::Executor => "executor config: ",
        };
        VmError::Config(String::from_str(label).concat(detail))
    }
}

/// What booting a VM takes: where its directory and control socket lie, and
/// the stages to go through, in order.
#[derive(Debug)]
pub struct BootPlan {
    /// The identifier of the VM, in its canonical text.
    pub vm_id: String,
    /// The VM's own directory, `<chroot>/<id>`.
    pub directory: String,
    /// The hypervisor's control socket, `<chroot>/<id>/firecracker.socket`.
    pub socket_path: String,
    /// The stages, in the order in which they are to be carried out.
    pub stages: Vec<BootStage>,
}

/// Plans the boot of the VM `id` from `config`.
///
/// An invalid spec is refused with the configuration error that
/// [`MachineConfig::validate`] gives. For a valid one the plan names the VM's
/// directory and control socket and lists the stages in order.
pub fn boot_plan(id: u128, config: &MachineConfig) -> (r: Result<BootPlan, VmError>)
    ensures
        r is Ok <==> config@.valid(),
        match r {
            Ok(plan) => {
                &&& plan.vm_id@ == hyphenated(id)
                &&& plan.directory@ == vm_directory(config@.chroot_path, id)
                &&& plan.socket_path@ == control_socket(config@.chroot_path, id)
                &&& plan.stages@ == boot_stages(config@.vsock is Some)
            },
            Err(e) => e matches VmError::Config(m) && config@.defect() == Some(m@),
        },
{
    match config.validate() {
        Err(e) => {
            return Err(e);
        },
        Ok(_) => {},
    }
    let vm_id: String = format_uuid(id);
    let directory: String = join(config.chroot_path.as_str(), vm_id.as_str());
    let socket_path: String = join(directory.as_str(), "firecracker.socket");
    let mut stages: Vec<BootStage> = Vec::new();
    stages.push(BootStage::EnsureDirectory);
    stages.push(BootStage::Launch);
    stages.push(BootStage::ConfigureMachine);
    if config.vsock.is_some() {
        stages.push(BootStage::ConfigureVsock);
    }
    stages.push(BootStage::Start);
    assert(stages@ =~= boot_stages(config@.vsock is Some));
    Ok(BootPlan { vm_id, directory, socket_path, stages })
}

/// In every boot the channel, where there is one, is configured before the
/// boot action, and the boot action comes last.
pub proof fn lemma_vsock_precedes_start(with_vsock: bool)
    ensures
        boot_stages(with_vsock).last() == BootStage::Start,
        forall|i: int|
            0 <= i < boot_stages(with_vsock).len() - 1 ==> boot_stages(with_vsock)[i]
                != BootStage::Start,
        with_vsock <==> boot_stages(with_vsock).contains(BootStage::ConfigureVsock),
        forall|i: int, j: int|
            0 <= i < boot_stages(with_vsock).len() && 0 <= j < boot_stages(with_vsock).len()
                && boot_stages(with_vsock)[i] == BootStage::ConfigureVsock && boot_stages(
                with_vsock,
            )[j] == BootStage::Start ==> i < j,
{
    if with_vsock {
        assert(boot_stages(with_vsock)[3] == BootStage::ConfigureVsock);
    }
}

/// A MicroVM that was booted: its identifier, the spec it was made from, its
/// state, and the handle `M` that owns the hypervisor process.
pub struct VirtualMachine<M> {
    id: u128,
    config: MachineConfig,
    state: VmState,
    machine: M,
    socket_path: String,
}

impl<M> VirtualMachine<M> {
    /// The identifier of the VM.
    pub closed spec fn spec_id(&self) -> u128 {
        self.id
    }

    /// The state of the VM.
    pub closed spec fn spec_state(&self) -> VmState {
        self.state
    }

    /// The spec that the VM was made from.
    pub closed spec fn spec_config(&self) -> MachineConfigView {
        self.config@
    }

    /// The control socket of the VM.
    pub closed spec fn spec_socket_path(&self) -> Seq<char> {
        self.socket_path@
    }

    /// The handle that owns the hypervisor.
    pub closed spec fn spec_machine(&self) -> M {
        self.machine
    }

    /// The VM `id` after its boot went through: running, with its control
    /// socket at `<chroot>/<id>/firecracker.socket`.
    pub fn running(id: u128, config: MachineConfig, machine: M) -> (vm: Self)
        ensures
            vm.spec_id() == id,
            vm.spec_state() == VmState::Running,
            vm.spec_config() == config@,
            vm.spec_machine() == machine,
            vm.spec_socket_path() == control_socket(config@.chroot_path, id),
    {
        let vm_id: String = format_uuid(id);
        let directory: String = join(config.chroot_path.as_str(), vm_id.as_str());
        let socket_path: String = join(directory.as_str(), "firecracker.socket");
        VirtualMachine { id, config, state: VmState::Running, machine, socket_path }
    }

    /// The identifier of the VM.
    pub fn id(&self) -> (id: u128)
        ensures
            id == self.spec_id(),
    {
        self.id
    }

    /// The current state of the VM.
    pub fn state(&self) -> (s: VmState)
        ensures
            s == self.spec_state(),
    {
        self.state
    }

    /// The spec that the VM was made from.
    pub fn config(&self) -> (c: &MachineConfig)
        ensures
            c@ == self.spec_config(),
    {
        &self.config
    }

    /// The path of the hypervisor's control socket.
    pub fn socket_path(&self) -> (p: &String)
        ensures
            p@ == self.spec_socket_path(),
    {
        &self.socket_path
    }

    /// The host socket of the channel, where the spec has a channel.
    pub fn vsock_uds_path(&self) -> (p: Option<&String>)
        ensures
            match p {
                Some(path) => self.spec_config().vsock matches Some(v) && v.uds_path == path@,
                None => self.spec_config().vsock is None,
            },
    {
        match &self.config.vsock {
            Some(v) => Some(&v.uds_path),
            None => None,
        }
    }

    /// The guest context ID of the channel, where the spec has a channel.
    pub fn vsock_cid(&self) -> (c: Option<u32>)
        ensures
            match c {
                Some(cid) => self.spec_config().vsock matches Some(v) && v.guest_cid == cid,
                None => self.spec_config().vsock is None,
            },
    {
        match &self.config.vsock {
            Some(v) => Some(v.guest_cid),
            None => None,
        }
    }

    /// The handle that owns the hypervisor.
    pub fn machine(&self) -> (m: &M)
        ensures
            *m == self.spec_machine(),
    {
        &self.machine
    }

    /// The handle that owns the hypervisor, to act on it. Nothing else of the
    /// VM changes with it.
    pub fn machine_mut(&mut self) -> (m: &mut M)
        ensures
            *m == old(self).spec_machine(),
            final(self).spec_machine() == *final(m),
            final(self).spec_id() == old(self).spec_id(),
            final(self).spec_state() == old(self).spec_state(),
            final(self).spec_config() == old(self).spec_config(),
            final(self).spec_socket_path() == old(self).spec_socket_path(),
    {
        &mut self.machine
    }

    /// Whether the VM may be started: it may when it is stopped or paused.
    /// A running VM and one still being created are refused, with the state
    /// that was found.
    pub fn check_start(&self) -> (r: Result<(), VmError>)
        ensures
            r is Ok <==> (self.spec_state() == VmState::Stopped || self.spec_state()
                == VmState::Paused),
            r matches Err(e) ==> e matches VmError::InvalidState { expected, actual }
                && expected@ == "stopped or paused"@ && actual@
                == self.spec_state().label_text(),
    {
        match self.state {
            VmState::Running | VmState::Creating => Err(
                VmError::InvalidState {
                    expected: String::from_str("stopped or paused"),
                    actual: String::from_str(self.state.label()),
                },
            ),
            _ => Ok(()),
        }
    }

    /// Whether the VM may be stopped: only a running VM may.
    pub fn check_stop(&self) -> (r: Result<(), VmError>)
        ensures
            r is Ok <==> self.spec_state() == VmState::Running,
            r matches Err(e) ==> e matches VmError::InvalidState { expected, actual }
                && expected@ == "running"@ && actual@ == self.spec_state().variant_text(),
    {
        if self.state != VmState::Running {
            Err(
                VmError::InvalidState {
                    expected: String::from_str("running"),
                    actual: String::from_str(self.state.variant_name()),
                },
            )
        } else {
            Ok(())
        }
    }

    /// Records how the hypervisor answered a start: the VM is running after a
    /// success, and as it was after a failure, which is handed on as a start
    /// error.
    pub fn finish_start(&mut self, outcome: Result<(), String>) -> (r: Result<(), VmError>)
        ensures
            final(self).spec_id() == old(self).spec_id(),
            final(self).spec_config() == old(self).spec_config(),
            final(self).spec_machine() == old(self).spec_machine(),
            final(self).spec_socket_path() == old(self).spec_socket_path(),
            match outcome {
                Ok(_) => r is Ok && final(self).spec_state() == VmState::Running,
                Err(detail) => r matches Err(VmError::Start(m)) && m@ == detail@ && final(self).spec_state() == old(self).spec_state(),
            },
    {
        match outcome {
            Ok(_) => {
                self.state = VmState::Running;
                Ok(())
            },
            Err(detail) => Err(VmError::Start(detail)),
        }
    }

    /// Records how the hypervisor answered a stop: the VM is stopped after a
    /// success, and as it was after a failure, which is handed on as a stop
    /// error.
    pub fn finish_stop(&mut self, outcome: Result<(), String>) -> (r: Result<(), VmError>)
        ensures
            final(self).spec_id() == old(self).spec_id(),
            final(self).spec_config() == old(self).spec_config(),
            final(self).spec_machine() == old(self).spec_machine(),
            final(self).spec_socket_path() == old(self).spec_socket_path(),
            match outcome {
                Ok(_) => r is Ok && final(self).spec_state() == VmState::Stopped,
                Err(detail) => r matches Err(VmError::Stop(m)) && m@ == detail@ && final(self).spec_state() == old(self).spec_state(),
            },
    {
        match outcome {
            Ok(_) => {
                self.state = VmState::Stopped;
                Ok(())
            },
            Err(detail) => Err(VmError::Stop(detail)),
        }
    }

    /// Records how the hypervisor answered a kill, which is allowed in every
    /// state: the VM is stopped after a success, and as it was after a
    /// failure, which is handed on as a stop error.
    pub fn finish_kill(&mut self, outcome: Result<(), String>) -> (r: Result<(), VmError>)
        ensures
            final(self).spec_id() == old(self).spec_id(),
            final(self).spec_config() == old(self).spec_config(),
            final(self).spec_machine() == old(self).spec_machine(),
            final(self).spec_socket_path() == old(self).spec_socket_path(),
            match outcome {
                Ok(_) => r is Ok && final(self).spec_state() == VmState::Stopped,
                Err(detail) => r matches Err(VmError::Stop(m)) && m@ == "kill failed: "@
                    + detail@ && final(self).spec_state() == old(self).spec_state(),
            },
    {
        match outcome {
            Ok(_) => {
                self.state = VmState::Stopped;
                Ok(())
            },
            Err(detail) => Err(
                VmError::Stop(String::from_str("kill failed: ").concat(detail.as_str())),
            ),
        }
    }

    /// Gives up the VM: hands out the handle that owns the hypervisor, to be
    /// released, and says whether the VM has to be killed first, which is the
    /// case exactly when it is running.
    pub fn destroy(self) -> (r: (bool, M))
        ensures
            r.0 == (self.spec_state() == VmState::Running),
            r.1 == self.spec_machine(),
    {
        let kill_first: bool = self.state == VmState::Running;
        (kill_first, self.machine)
    }
}

} // verus!
