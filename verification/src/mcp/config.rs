//! Configuration of the tool server.

use crate::text::{
    lowercase, parse_u16, parse_usize, parsed_u16, parsed_usize, same_text, to_lowercase,
};
use vstd::prelude::*;

verus! {

/// Maximum size of code or content handed to a tool, in bytes (10 MiB).
pub const MAX_INPUT_SIZE_BYTES: usize = 10 * 1024 * 1024;

/// Maximum length of a command handed to a tool, in bytes (1 MiB).
pub const MAX_COMMAND_LENGTH: usize = 1024 * 1024;

/// Transport mode of the tool server.
#[derive(Debug, Clone, Copy, PartialEq, Eq, Structural)]
pub enum TransportMode {
    /// Standard input and output only.
    Stdio,
    /// HTTP only.
    Http,
    /// Both (the default).
    Both,
}

impl Default for TransportMode {
    fn default() -> (m: Self)
        ensures
            m == TransportMode::Both,
    {
        TransportMode::Both
    }
}

/// The mode that a name in lower case stands for: `stdio` for standard input
/// and output; `http`, `sse` and `remote` for HTTP; anything else for both.
pub open spec fn mode_of(name: Seq<char>) -> TransportMode {
    if name == "stdio"@ {
        TransportMode::Stdio
    } else if name == "http"@ || name == "sse"@ || name == "remote"@ {
        TransportMode::Http
    } else {
        TransportMode::Both
    }
}

impl TransportMode {
    /// The mode that a name in lower case stands for.
    pub fn from_lowercase(name: &str) -> (m: Self)
        ensures
            m == mode_of(name@),
    {
        if same_text(name, "stdio") {
            TransportMode::Stdio
        } else if same_text(name, "http") || same_text(name, "sse") || same_text(name, "remote") {
            TransportMode::Http
        } else {
            TransportMode::Both
        }
    }

    /// The mode that a name stands for, whatever its case.
    pub fn parse(s: &str) -> (m: Self)
        ensures
            m == mode_of(lowercase(s@)),
    {
        let name: String = to_lowercase(s);
        TransportMode::from_lowercase(name.as_str())
    }

    /// Whether the transport over standard input and output is on.
    pub fn stdio_enabled(&self) -> (b: bool)
        ensures
            b == (*self == TransportMode::Stdio || *self == TransportMode::Both),
    {
        match self {
            TransportMode::Stdio | TransportMode::Both => true,
            TransportMode::Http => false,
        }
    }

    /// Whether the transport over HTTP is on.
    pub fn http_enabled(&self) -> (b: bool)
        ensures
            b == (*self == TransportMode::Http || *self == TransportMode::Both),
    {
        match self {
            TransportMode::Http | TransportMode::Both => true,
            TransportMode::Stdio => false,
        }
    }
}

/// Configuration of the tool server.
#[derive(Debug, Clone)]
pub struct BouvetConfig {
    /// Path to the kernel image.
    pub kernel_path: String,
    /// Path to the root filesystem image.
    pub rootfs_path: String,
    /// Path to the hypervisor binary.
    pub firecracker_path: String,
    /// Working directory for VMs.
    pub chroot_path: String,
    /// Whether sandboxes are booted ahead of demand (default: yes).
    pub pool_enabled: bool,
    /// Number of warm sandboxes in the pool (default 3).
    pub pool_min_size: usize,
    /// Maximum number of concurrent boots while the pool fills (default 2).
    pub pool_max_boots: usize,
    /// Transport mode (default: both).
    pub transport_mode: TransportMode,
    /// Address that the HTTP server binds (default `0.0.0.0`).
    pub http_host: String,
    /// Port that the HTTP server binds (default 8080).
    pub http_port: u16,
}

/// The content of a [`BouvetConfig`].
pub struct BouvetConfigView {
    pub kernel_path: Seq<char>,
    pub rootfs_path: Seq<char>,
    pub firecracker_path: Seq<char>,
    pub chroot_path: Seq<char>,
    pub pool_enabled: bool,
    pub pool_min_size: usize,
    pub pool_max_boots: usize,
    pub transport_mode: TransportMode,
    pub http_host: Seq<char>,
    pub http_port: u16,
}

impl View for BouvetConfig {
    type V = BouvetConfigView;

    open spec fn view(&self) -> BouvetConfigView {
        BouvetConfigView {
            kernel_path: self.kernel_path@,
            rootfs_path: self.rootfs_path@,
            firecracker_path: self.firecracker_path@,
            chroot_path: self.chroot_path@,
            pool_enabled: self.pool_enabled,
            pool_min_size: self.pool_min_size,
            pool_max_boots: self.pool_max_boots,
            transport_mode: self.transport_mode,
            http_host: self.http_host@,
            http_port: self.http_port,
        }
    }
}

/// What the environment says about the configuration: the value of each
/// variable that is set. The host is the value of its variable only where
/// that is an address, and missing otherwise.
#[derive(Debug, Default)]
pub struct Environment {
    /// `BOUVET_KERNEL`.
    pub kernel: Option<String>,
    /// `BOUVET_ROOTFS`.
    pub rootfs: Option<String>,
    /// `BOUVET_FIRECRACKER`.
    pub firecracker: Option<String>,
    /// `BOUVET_CHROOT`.
    pub chroot: Option<String>,
    /// `BOUVET_POOL_ENABLED`.
    pub pool_enabled: Option<String>,
    /// `BOUVET_POOL_MIN_SIZE`.
    pub pool_min_size: Option<String>,
    /// `BOUVET_POOL_MAX_BOOTS`.
    pub pool_max_boots: Option<String>,
    /// `BOUVET_TRANSPORT`.
    pub transport: Option<String>,
    /// `BOUVET_HTTP_HOST`.
    pub http_host: Option<String>,
    /// `BOUVET_HTTP_PORT`.
    pub http_port: Option<String>,
}

/// The value of a variable, or the default where it is not set.
pub open spec fn text_or(value: Option<String>, default: Seq<char>) -> Seq<char> {
    match value {
        Some(v) => v@,
        None => default,
    }
}

/// Whether the pool is on: it is unless the variable is set to `false` or to
/// `0`.
pub open spec fn pool_enabled_of(value: Option<String>) -> bool {
    match value {
        Some(v) => v@ != "false"@ && v@ != "0"@,
        None => true,
    }
}

/// The size that a variable gives, or the default where it is not set or
/// gives none.
pub open spec fn size_or(value: Option<String>, default: usize) -> usize {
    match value {
        Some(v) => match parsed_usize(v@) {
            Some(n) => n,
            None => default,
        },
        None => default,
    }
}

impl BouvetConfig {
    /// The configuration where no variable is set.
    pub open spec fn default_view() -> BouvetConfigView {
        BouvetConfigView {
            kernel_path: "/var/lib/bouvet/vmlinux"@,
            rootfs_path: "/var/lib/bouvet/debian-devbox.ext4"@,
            firecracker_path: "/usr/local/bin/firecracker"@,
            chroot_path: "/tmp/bouvet"@,
            pool_enabled: true,
            pool_min_size: 3,
            pool_max_boots: 2,
            transport_mode: TransportMode::Both,
            http_host: "0.0.0.0"@,
            http_port: 8080,
        }
    }

    /// The configuration that the environment gives: each variable that is
    /// set and well-formed decides its part, and the default stands for the
    /// rest.
    pub open spec fn view_from(env: Environment) -> BouvetConfigView {
        BouvetConfigView {
            kernel_path: text_or(env.kernel, BouvetConfig::default_view().kernel_path),
            rootfs_path: text_or(env.rootfs, BouvetConfig::default_view().rootfs_path),
            firecracker_path: text_or(
                env.firecracker,
                BouvetConfig::default_view().firecracker_path,
            ),
            chroot_path: text_or(env.chroot, BouvetConfig::default_view().chroot_path),
            pool_enabled: pool_enabled_of(env.pool_enabled),
            pool_min_size: size_or(env.pool_min_size, 3),
            pool_max_boots: size_or(env.pool_max_boots, 2),
            transport_mode: match env.transport {
                Some(v) => mode_of(lowercase(v@)),
                None => TransportMode::Both,
            },
            http_host: text_or(env.http_host, BouvetConfig::default_view().http_host),
            http_port: match env.http_port {
                Some(v) => match parsed_u16(v@) {
                    Some(p) => p,
                    None => 8080,
                },
                None => 8080,
            },
        }
    }

    /// Makes the configuration that the environment gives.
    pub fn from_environment(env: Environment) -> (c: Self)
        ensures
            c@ == BouvetConfig::view_from(env),
    {
        let pool_enabled: bool = match &env.pool_enabled {
            Some(v) => !same_text(v.as_str(), "false") && !same_text(v.as_str(), "0"),
            None => true,
        };
        let pool_min_size: usize = match &env.pool_min_size {
            Some(v) => match parse_usize(v.as_str()) {
                Some(n) => n,
                None => 3,
            },
            None => 3,
        };
        let pool_max_boots: usize = match &env.pool_max_boots {
            Some(v) => match parse_usize(v.as_str()) {
                Some(n) => n,
                None => 2,
            },
            None => 2,
        };
        let transport_mode: TransportMode = match &env.transport {
            Some(v) => TransportMode::parse(v.as_str()),
            None => TransportMode::Both,
        };
        let http_port: u16 = match &env.http_port {
            Some(v) => match parse_u16(v.as_str()) {
                Some(p) => p,
                None => 8080,
            },
            None => 8080,
        };
        BouvetConfig {
            kernel_path: match env.kernel {
                Some(v) => v,
                None => String::from_str("/var/lib/bouvet/vmlinux"),
            },
            rootfs_path: match env.rootfs {
                Some(v) => v,
                None => String::from_str("/var/lib/bouvet/debian-devbox.ext4"),
            },
            firecracker_path: match env.firecracker {
                Some(v) => v,
                None => String::from_str("/usr/local/bin/firecracker"),
            },
            chroot_path: match env.chroot {
                Some(v) => v,
                None => String::from_str("/tmp/bouvet"),
            },
            pool_enabled,
            pool_min_size,
            pool_max_boots,
            transport_mode,
            http_host: match env.http_host {
                Some(v) => v,
                None => String::from_str("0.0.0.0"),
            },
            http_port,
        }
    }

    /// Validates the configuration against what the filesystem holds: the
    /// kernel, the root filesystem and the hypervisor binary have to exist,
    /// and so has the directory above the working directory, where the
    /// working directory has one. The first that is missing is named.
    pub fn validate(&self, found: &PathsFound) -> (r: Result<(), ConfigError>)
        ensures
            match r {
                Ok(_) => found.complete(),
                Err(e) => if !found.kernel {
                    e matches ConfigError::MissingKernel(p) && p@ == self.kernel_path@
                } else if !found.rootfs {
                    e matches ConfigError::MissingRootfs(p) && p@ == self.rootfs_path@
                } else if !found.firecracker {
                    e matches ConfigError::MissingFirecracker(p) && p@ == self.firecracker_path@
                } else {
                    found.chroot_parent == Some(false) && (e matches ConfigError::InvalidChroot(p)
                        && p@ == self.chroot_path@)
                },
            },
    {
        if !found.kernel {
            return Err(ConfigError::MissingKernel(self.kernel_path.clone()));
        }
        if !found.rootfs {
            return Err(ConfigError::MissingRootfs(self.rootfs_path.clone()));
        }
        if !found.firecracker {
            return Err(ConfigError::MissingFirecracker(self.firecracker_path.clone()));
        }
        match found.chroot_parent {
            Some(false) => Err(ConfigError::InvalidChroot(self.chroot_path.clone())),
            _ => Ok(()),
        }
    }
}

impl Default for BouvetConfig {
    fn default() -> (c: Self)
        ensures
            c@ == BouvetConfig::default_view(),
    {
        BouvetConfig {
            kernel_path: String::from_str("/var/lib/bouvet/vmlinux"),
            rootfs_path: String::from_str("/var/lib/bouvet/debian-devbox.ext4"),
            firecracker_path: String::from_str("/usr/local/bin/firecracker"),
            chroot_path: String::from_str("/tmp/bouvet"),
            pool_enabled: true,
            pool_min_size: 3,
            pool_max_boots: 2,
            transport_mode: TransportMode::Both,
            http_host: String::from_str("0.0.0.0"),
            http_port: 8080,
        }
    }
}

/// Which of the configured paths the filesystem holds.
#[derive(Debug, Clone, Copy, PartialEq, Eq, Structural)]
pub struct PathsFound {
    /// Whether the kernel image exists.
    pub kernel: bool,
    /// Whether the root filesystem image exists.
    pub rootfs: bool,
    /// Whether the hypervisor binary exists.
    pub firecracker: bool,
    /// Whether the directory above the working directory exists; `None`
    /// where the working directory has no directory above it.
    pub chroot_parent: Option<bool>,
}

impl PathsFound {
    /// Whether nothing is missing.
    pub open spec fn complete(self) -> bool {
        self.kernel && self.rootfs && self.firecracker && self.chroot_parent != Some(false)
    }
}

/// Configuration validation error.
#[derive(Debug)]
pub enum ConfigError {
    /// The kernel file was not found.
    MissingKernel(String),
    /// The root filesystem file was not found.
    MissingRootfs(String),
    /// The hypervisor binary was not found.
    MissingFirecracker(String),
    /// The directory above the working directory was not found.
    InvalidChroot(String),
}

impl ConfigError {
    /// The text that describes the error.
    pub open spec fn message_text(self) -> Seq<char> {
        match self {
            ConfigError::MissingKernel(p) => "kernel file not found: "@ + p@,
            ConfigError::MissingRootfs(p) => "rootfs file not found: "@ + p@,
            ConfigError::MissingFirecracker(p) => "firecracker binary not found: "@ + p@,
            ConfigError::InvalidChroot(p) => "chroot parent directory not found: "@ + p@,
        }
    }

    /// Describes the error in words.
    pub fn message(&self) -> (s: String)
        ensures
            s@ == self.message_text(),
    {
        match self {
            ConfigError::MissingKernel(p) => String::from_str("kernel file not found: ").concat(
                p.as_str(),
            ),
            ConfigError::MissingRootfs(p) => String::from_str("rootfs file not found: ").concat(
                p.as_str(),
            ),
            ConfigError::MissingFirecracker(p) => String::from_str(
                "firecracker binary not found: ",
            ).concat(p.as_str()),
            ConfigError::InvalidChroot(p) => String::from_str(
                "chroot parent directory not found: ",
            ).concat(p.as_str()),
        }
    }
}

} // verus!
