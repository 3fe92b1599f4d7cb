//! The two calls that the driver itself makes on the hypervisor's control
//! API before boot: the bodies it sends, and what it makes of the answers.

use crate::vm::config::VsockConfig;
use crate::vm::error::VmError;
use vstd::prelude::*;

verus! {

/// A call on the control API.
#[derive(Debug, Clone, Copy, PartialEq, Eq, Structural)]
pub enum ControlCall {
    /// `PUT /machine-config`: vCPU count and memory size.
    MachineConfig,
    /// `PUT /vsock`: the host-to-guest channel.
    Vsock,
}

/// What `serde_json::to_string` writes for the `MachineConfiguration` that
/// `firepilot_models` makes of a memory size and a vCPU count: the JSON text,
/// or the message of the error it reports.
pub uninterp spec fn machine_configuration_text(mem_size_mib: i32, vcpu_count: i32) -> Result<
    Seq<char>,
    Seq<char>,
>;

/// What `serde_json::to_string` writes for the `Vsock` that `firepilot_models`
/// makes of a guest context ID and a socket path: the JSON text, or the
/// message of the error it reports.
pub uninterp spec fn vsock_text(guest_cid: i32, uds_path: Seq<char>) -> Result<
    Seq<char>,
    Seq<char>,
>;

/// `serde_json::to_string`, on `MachineConfiguration::new(mem_size_mib,
/// vcpu_count)`.
#[verifier::external_body]
fn machine_configuration_json(mem_size_mib: i32, vcpu_count: i32) -> (r: Result<String, String>)
    ensures
        match r {
            Ok(s) => machine_configuration_text(mem_size_mib, vcpu_count) == Ok::<
                Seq<char>,
                Seq<char>,
            >(s@),
            Err(e) => machine_configuration_text(mem_size_mib, vcpu_count) == Err::<
                Seq<char>,
                Seq<char>,
            >(e@),
        },
{
    let config = firepilot_models::models::MachineConfiguration::new(mem_size_mib, vcpu_count);
    serde_json::to_string(&config).map_err(|e| e.to_string())
}

/// `serde_json::to_string`, on `Vsock::new(guest_cid, uds_path)`.
#[verifier::external_body]
fn vsock_json(guest_cid: i32, uds_path: &str) -> (r: Result<String, String>)
    ensures
        match r {
            Ok(s) => vsock_text(guest_cid, uds_path@) == Ok::<Seq<char>, Seq<char>>(s@),
            Err(e) => vsock_text(guest_cid, uds_path@) == Err::<Seq<char>, Seq<char>>(e@),
        },
{
    let vsock = firepilot_models::models::Vsock::new(guest_cid, uds_path.to_string());
    serde_json::to_string(&vsock).map_err(|e| e.to_string())
}

impl ControlCall {
    /// The path of the call on the control socket.
    pub open spec fn path_text(self) -> Seq<char> {
        match self {
            ControlCall::MachineConfig => "/machine-config"@,
            ControlCall::Vsock => "/vsock"@,
        }
    }

    /// What the call is named in error messages.
    pub open spec fn label(self) -> Seq<char> {
        match self {
            ControlCall::MachineConfig => "machine config"@,
            ControlCall::Vsock => "vsock configuration"@,
        }
    }

    /// The path of the call on the control socket.
    pub fn path(&self) -> (p: &'static str)
        ensures
            p@ == self.path_text(),
    {
        match self {
            ControlCall::MachineConfig => "/machine-config",
            ControlCall::Vsock => "/vsock",
        }
    }

    fn name(&self) -> (p: &'static str)
        ensures
            p@ == self.label(),
    {
        match self {
            ControlCall::MachineConfig => "machine config",
            ControlCall::Vsock => "vsock configuration",
        }
    }

    /// What the call is named where its request cannot be made.
    pub open spec fn request_label(self) -> Seq<char> {
        match self {
            ControlCall::MachineConfig => "machine config"@,
            ControlCall::Vsock => "vsock"@,
        }
    }

    /// The error for a call whose request could not be put together.
    pub fn build_failure(&self, detail: &str) -> (e: VmError)
        ensures
            e matches VmError::Config(m) && m@ == "failed to build "@ + self.request_label()
                + " request: "@ + detail@,
    {
        let label: &str = match self {
            ControlCall::MachineConfig => "machine config",
            ControlCall::Vsock => "vsock",
        };
        VmError::Config(
            String::from_str("failed to build ").concat(label).concat(" request: ").concat(detail),
        )
    }

    /// The error for a call that the transport could not carry out.
    pub fn transport_failure(&self, detail: &str) -> (e: VmError)
        ensures
            e matches VmError::Firepilot(m) && m@ == self.label() + " request failed: "@
                + detail@,
    {
        VmError::Firepilot(
            String::from_str(self.name()).concat(" request failed: ").concat(detail),
        )
    }

    /// What the driver makes of an answer: success for a status from 200 to
    /// 299, and otherwise an error that carries the status and the body that
    /// the hypervisor sent, word for word.
    pub fn check_response(&self, status: u16, status_text: &str, body: &str) -> (r: Result<
        (),
        VmError,
    >)
        ensures
            r is Ok <==> 200 <= status <= 299,
            r matches Err(e) ==> e matches VmError::Firepilot(m) && m@ == self.label()
                + " failed with status "@ + status_text@ + ": "@ + body@,
    {
        if 200 <= status && status <= 299 {
            Ok(())
        } else {
            Err(
                VmError::Firepilot(
                    String::from_str(self.name()).concat(" failed with status ").concat(
                        status_text,
                    ).concat(": ").concat(body),
                ),
            )
        }
    }
}

/// What [`machine_config_body`] returns for a vCPU count and a memory size.
pub open spec fn machine_config_body_spec(vcpu_count: u8, mem_size_mib: u32) -> Result<
    Seq<char>,
    Seq<char>,
> {
    match machine_configuration_text(mem_size_mib as i32, vcpu_count as i32) {
        Ok(body) => Ok(body),
        Err(e) => Err("failed to serialize machine config: "@ + e),
    }
}

/// What [`vsock_body`] returns for a channel.
pub open spec fn vsock_body_spec(guest_cid: u32, uds_path: Seq<char>) -> Result<
    Seq<char>,
    Seq<char>,
> {
    match vsock_text(guest_cid as i32, uds_path) {
        Ok(body) => Ok(body),
        Err(e) => Err("failed to serialize vsock config: "@ + e),
    }
}

/// The body of `PUT /machine-config`. The memory size is sent as a signed
/// 32-bit number, which a size of 2^31 MiB or more does not fit: its low 32
/// bits are sent.
pub fn machine_config_body(vcpu_count: u8, mem_size_mib: u32) -> (r: Result<String, VmError>)
    ensures
        match r {
            Ok(body) => machine_config_body_spec(vcpu_count, mem_size_mib) == Ok::<
                Seq<char>,
                Seq<char>,
            >(body@),
            Err(e) => e matches VmError::Config(m) && machine_config_body_spec(
                vcpu_count,
                mem_size_mib,
            ) == Err::<Seq<char>, Seq<char>>(m@),
        },
{
    let mem: i32 = #[verifier::truncate]
    (mem_size_mib as i32);
    match machine_configuration_json(mem, vcpu_count as i32) {
        Ok(body) => Ok(body),
        Err(e) => Err(
            VmError::Config(
                String::from_str("failed to serialize machine config: ").concat(e.as_str()),
            ),
        ),
    }
}

/// The body of `PUT /vsock`. The context ID is sent as a signed 32-bit
/// number: of an ID of 2^31 or more, the low 32 bits are sent.
pub fn vsock_body(config: &VsockConfig) -> (r: Result<String, VmError>)
    ensures
        match r {
            Ok(body) => vsock_body_spec(config.guest_cid, config.uds_path@) == Ok::<
                Seq<char>,
                Seq<char>,
            >(body@),
            Err(e) => e matches VmError::Config(m) && vsock_body_spec(
                config.guest_cid,
                config.uds_path@,
            ) == Err::<Seq<char>, Seq<char>>(m@),
        },
{
    let cid: i32 = #[verifier::truncate]
    (config.guest_cid as i32);
    match vsock_json(cid, config.uds_path.as_str()) {
        Ok(body) => Ok(body),
        Err(e) => Err(
            VmError::Config(
                String::from_str("failed to serialize vsock config: ").concat(e.as_str()),
            ),
        ),
    }
}

} // verus!
