//! Sandbox configuration.

use crate::error::CoreError;
use std::time::Duration;
use vstd::prelude::*;

verus! {

/// Configuration for creating a sandbox.
#[derive(Debug, Clone)]
pub struct SandboxConfig {
    /// Path to the kernel image.
    pub kernel_path: String,
    /// Path to the root filesystem image.
    pub rootfs_path: String,
    /// Working directory for VM sockets and state.
    pub chroot_path: String,
    /// Memory in MiB (default 256, at least 128).
    pub memory_mib: u32,
    /// vCPU count (default 2, from 1 to 32).
    pub vcpu_count: u8,
    /// Maximum execution time for any single operation.
    pub timeout: Option<Duration>,
    /// Guest context ID of the channel (default 3, at least 3).
    pub vsock_cid: u32,
}

/// The content of a [`SandboxConfig`].
pub struct SandboxConfigView {
    pub kernel_path: Seq<char>,
    pub rootfs_path: Seq<char>,
    pub chroot_path: Seq<char>,
    pub memory_mib: u32,
    pub vcpu_count: u8,
    pub timeout: Option<Duration>,
    pub vsock_cid: u32,
}

impl View for SandboxConfig {
    type V = SandboxConfigView;

    open spec fn view(&self) -> SandboxConfigView {
        SandboxConfigView {
            kernel_path: self.kernel_path@,
            rootfs_path: self.rootfs_path@,
            chroot_path: self.chroot_path@,
            memory_mib: self.memory_mib,
            vcpu_count: self.vcpu_count,
            timeout: self.timeout,
            vsock_cid: self.vsock_cid,
        }
    }
}

impl SandboxConfigView {
    /// What is wrong with the configuration, in the order in which the rules
    /// are tried; `None` where nothing is.
    pub open spec fn defect(self) -> Option<Seq<char>> {
        if self.kernel_path.len() == 0 {
            Some("kernel_path is required"@)
        } else if self.rootfs_path.len() == 0 {
            Some("rootfs_path is required"@)
        } else if self.memory_mib < 128 {
            Some("memory_mib must be at least 128"@)
        } else if self.vcpu_count == 0 || self.vcpu_count > 32 {
            Some("vcpu_count must be 1-32"@)
        } else if self.vsock_cid < 3 {
            Some("vsock_cid must be >= 3"@)
        } else {
            None
        }
    }

    /// Whether a sandbox can be made from the configuration: both image paths
    /// are given, the memory is at least 128 MiB, there are 1 to 32 vCPUs, and
    /// the context ID is none of the reserved values 0 to 2.
    pub open spec fn valid(self) -> bool {
        &&& self.kernel_path.len() > 0
        &&& self.rootfs_path.len() > 0
        &&& self.memory_mib >= 128
        &&& 1 <= self.vcpu_count <= 32
        &&& self.vsock_cid >= 3
    }
}

/// A configuration has a defect exactly when it is not valid.
pub proof fn lemma_defect_iff_invalid(config: SandboxConfigView)
    ensures
        config.defect() is None <==> config.valid(),
{
}

impl SandboxConfig {
    /// The configuration that a builder starts from: no image paths, the
    /// working directory `/tmp/bouvet`, 256 MiB, 2 vCPUs, no timeout, and the
    /// context ID 3.
    pub open spec fn default_view() -> SandboxConfigView {
        SandboxConfigView {
            kernel_path: Seq::empty(),
            rootfs_path: Seq::empty(),
            chroot_path: "/tmp/bouvet"@,
            memory_mib: 256,
            vcpu_count: 2,
            timeout: None,
            vsock_cid: 3,
        }
    }

    /// Creates a new config builder.
    pub fn builder() -> (b: SandboxConfigBuilder)
        ensures
            b@ == SandboxConfig::default_view(),
    {
        SandboxConfigBuilder::default()
    }

    /// Validates the configuration: `Ok` exactly for a valid one, and
    /// otherwise an error that names the first rule broken.
    pub fn validate(&self) -> (r: Result<(), CoreError>)
        ensures
            r is Ok <==> self@.valid(),
            match r {
                Ok(_) => self@.defect() is None,
                Err(e) => e matches CoreError::Connection(m) && self@.defect() == Some(m@),
            },
    {
        if self.kernel_path.as_str().is_empty() {
            return Err(CoreError::Connection(String::from_str("kernel_path is required")));
        }
        if self.rootfs_path.as_str().is_empty() {
            return Err(CoreError::Connection(String::from_str("rootfs_path is required")));
        }
        if self.memory_mib < 128 {
            return Err(
                CoreError::Connection(String::from_str("memory_mib must be at least 128")),
            );
        }
        if self.vcpu_count == 0 || self.vcpu_count > 32 {
            return Err(CoreError::Connection(String::from_str("vcpu_count must be 1-32")));
        }
        if self.vsock_cid < 3 {
            return Err(CoreError::Connection(String::from_str("vsock_cid must be >= 3")));
        }
        Ok(())
    }

    /// A copy with the same content.
    pub fn duplicate(&self) -> (r: Self)
        ensures
            r@ == self@,
    {
        SandboxConfig {
            kernel_path: self.kernel_path.clone(),
            rootfs_path: self.rootfs_path.clone(),
            chroot_path: self.chroot_path.clone(),
            memory_mib: self.memory_mib,
            vcpu_count: self.vcpu_count,
            timeout: self.timeout,
            vsock_cid: self.vsock_cid,
        }
    }
}

impl Default for SandboxConfig {
    fn default() -> (r: Self)
        ensures
            r@ == SandboxConfig::default_view(),
    {
        SandboxConfig {
            kernel_path: String::new(),
            rootfs_path: String::new(),
            chroot_path: String::from_str("/tmp/bouvet"),
            memory_mib: 256,
            vcpu_count: 2,
            timeout: None,
            vsock_cid: 3,
        }
    }
}

/// Builder for [`SandboxConfig`]. Each method replaces one part of the
/// configuration and leaves the rest as it was.
#[derive(Debug)]
pub struct SandboxConfigBuilder {
    config: SandboxConfig,
}

impl View for SandboxConfigBuilder {
    type V = SandboxConfigView;

    /// The configuration built so far.
    closed spec fn view(&self) -> SandboxConfigView {
        self.config@
    }
}

impl Default for SandboxConfigBuilder {
    fn default() -> (b: Self)
        ensures
            b@ == SandboxConfig::default_view(),
    {
        SandboxConfigBuilder { config: SandboxConfig::default() }
    }
}

impl SandboxConfigBuilder {
    /// Sets the kernel path.
    pub fn kernel(self, path: &str) -> (r: Self)
        ensures
            r@ == (SandboxConfigView { kernel_path: path@, ..self@ }),
    {
        let mut b = self;
        b.config.kernel_path = String::from_str(path);
        b
    }

    /// Sets the root filesystem path.
    pub fn rootfs(self, path: &str) -> (r: Self)
        ensures
            r@ == (SandboxConfigView { rootfs_path: path@, ..self@ }),
    {
        let mut b = self;
        b.config.rootfs_path = String::from_str(path);
        b
    }

    /// Sets the memory in MiB.
    pub fn memory_mib(self, mib: u32) -> (r: Self)
        ensures
            r@ == (SandboxConfigView { memory_mib: mib, ..self@ }),
    {
        let mut b = self;
        b.config.memory_mib = mib;
        b
    }

    /// Sets the vCPU count.
    pub fn vcpu_count(self, count: u8) -> (r: Self)
        ensures
            r@ == (SandboxConfigView { vcpu_count: count, ..self@ }),
    {
        let mut b = self;
        b.config.vcpu_count = count;
        b
    }

    /// Sets the operation timeout.
    pub fn timeout(self, timeout: Duration) -> (r: Self)
        ensures
            r@ == (SandboxConfigView { timeout: Some(timeout), ..self@ }),
    {
        let mut b = self;
        b.config.timeout = Some(timeout);
        b
    }

    /// Sets the guest context ID of the channel.
    pub fn vsock_cid(self, cid: u32) -> (r: Self)
        ensures
            r@ == (SandboxConfigView { vsock_cid: cid, ..self@ }),
    {
        let mut b = self;
        b.config.vsock_cid = cid;
        b
    }

    /// Sets the working directory.
    pub fn chroot_path(self, path: &str) -> (r: Self)
        ensures
            r@ == (SandboxConfigView { chroot_path: path@, ..self@ }),
    {
        let mut b = self;
        b.config.chroot_path = String::from_str(path);
        b
    }

    /// Builds the configuration: handed out exactly when it is valid, and
    /// otherwise refused with an error that names the first rule broken.
    pub fn build(self) -> (r: Result<SandboxConfig, CoreError>)
        ensures
            r is Ok <==> self@.valid(),
            match r {
                Ok(config) => config@ == self@,
                Err(e) => e matches CoreError::Connection(m) && self@.defect() == Some(m@),
            },
    {
        match self.config.validate() {
            Ok(_) => Ok(self.config),
            Err(e) => Err(e),
        }
    }
}

} // verus!
