//! Command-line parameter records.
//!
//! These records carry every recognized launch option as a plain value.
//! The surrounding program fills them (from whatever argument parser it
//! uses) and hands them to [`crate::config::build`], which turns them
//! into an immutable launch configuration.

use vstd::prelude::*;

verus! {

/// Which top-level operation the caller asked for.
#[derive(Clone, Copy, Debug, PartialEq, Eq, Structural)]
pub enum Commands {
    /// Create a VM instance.
    Create,
    /// Connect to a running instance's API server and update it.
    Update,
}

/// Guest CPU topology parameters.
#[derive(Clone, Copy, Debug, PartialEq, Eq, Structural)]
pub struct CpuTopologyArgs {
    pub threads_per_core: u8,
    pub cores_per_die: u8,
    pub dies_per_socket: u8,
    pub sockets: u8,
}

/// Root filesystem parameters.
#[derive(Debug, Clone, PartialEq, Eq)]
pub struct RootfsArgs {
    /// Host path of the root filesystem image; the launch cannot proceed
    /// without it.
    pub rootfs: Option<String>,
    /// Whether the device is the root boot device.
    pub is_root: bool,
    /// Whether the device is opened read-only.
    pub is_read_only: bool,
}

/// Mathematical image of [`RootfsArgs`].
pub ghost struct RootfsArgsV {
    pub rootfs: Option<Seq<char>>,
    pub is_root: bool,
    pub is_read_only: bool,
}

impl View for RootfsArgs {
    type V = RootfsArgsV;

    open spec fn view(&self) -> RootfsArgsV {
        RootfsArgsV {
            rootfs: self.rootfs.deep_view(),
            is_root: self.is_root,
            is_read_only: self.is_read_only,
        }
    }
}

/// Parameters used when creating a VM: CPU, memory, serial console and
/// vsock settings.
#[derive(Debug, Clone, PartialEq, Eq)]
pub struct CreateArgs {
    /// Number of vCPUs to start with.
    pub vcpu: u8,
    /// Largest number of vCPUs the instance may grow to.
    pub max_vcpu: u8,
    /// CPU power-management mode.
    pub cpu_pm: String,
    /// vPMU support level.
    pub vpmu_feature: u8,
    pub cpu_topology: CpuTopologyArgs,
    /// Memory backing type (for example hugetlbfs or shmem).
    pub mem_type: String,
    /// Backing file path for the guest memory, when one is used.
    pub mem_file_path: String,
    /// Guest memory size in MiB.
    pub mem_size: usize,
    /// Path of the serial device used to talk to the VM.
    pub serial_path: Option<String>,
    /// Path of the virtio vsock socket; empty means no vsock device.
    pub vsock: String,
}

/// Mathematical image of [`CreateArgs`].
pub ghost struct CreateArgsV {
    pub vcpu: u8,
    pub max_vcpu: u8,
    pub cpu_pm: Seq<char>,
    pub vpmu_feature: u8,
    pub cpu_topology: CpuTopologyArgs,
    pub mem_type: Seq<char>,
    pub mem_file_path: Seq<char>,
    pub mem_size: usize,
    pub serial_path: Option<Seq<char>>,
    pub vsock: Seq<char>,
}

impl View for CreateArgs {
    type V = CreateArgsV;

    open spec fn view(&self) -> CreateArgsV {
        CreateArgsV {
            vcpu: self.vcpu,
            max_vcpu: self.max_vcpu,
            cpu_pm: self.cpu_pm@,
            vpmu_feature: self.vpmu_feature,
            cpu_topology: self.cpu_topology,
            mem_type: self.mem_type@,
            mem_file_path: self.mem_file_path@,
            mem_size: self.mem_size,
            serial_path: self.serial_path.deep_view(),
            vsock: self.vsock@,
        }
    }
}

/// Boot source parameters: kernel, optional initrd and firmware, and the
/// kernel command line.
#[derive(Debug, Clone, PartialEq, Eq)]
pub struct BootArgs {
    /// Path of the (uncompressed) kernel image; the launch cannot
    /// proceed without it.
    pub kernel_path: Option<String>,
    /// Path of the initrd, when one is used.
    pub initrd_path: Option<String>,
    /// Path of the firmware image, when one is used.
    pub firmware_path: Option<String>,
    /// Arguments passed to the kernel.
    pub boot_args: String,
    pub rootfs_args: RootfsArgs,
}

/// Mathematical image of [`BootArgs`].
pub ghost struct BootArgsV {
    pub kernel_path: Option<Seq<char>>,
    pub initrd_path: Option<Seq<char>>,
    pub firmware_path: Option<Seq<char>>,
    pub boot_args: Seq<char>,
    pub rootfs_args: RootfsArgsV,
}

impl View for BootArgs {
    type V = BootArgsV;

    open spec fn view(&self) -> BootArgsV {
        BootArgsV {
            kernel_path: self.kernel_path.deep_view(),
            initrd_path: self.initrd_path.deep_view(),
            firmware_path: self.firmware_path.deep_view(),
            boot_args: self.boot_args@,
            rootfs_args: self.rootfs_args@,
        }
    }
}

/// Parameters for updating a running VM.
#[derive(Debug, Clone, PartialEq, Eq)]
pub struct UpdateArgs {
    /// New vCPU count to resize to, when requested.
    pub vcpu_resize: Option<usize>,
}

impl View for UpdateArgs {
    type V = UpdateArgs;

    open spec fn view(&self) -> UpdateArgs {
        *self
    }
}

/// Attestation parameters for a confidential launch in remote mode.
#[derive(Debug, Clone, PartialEq, Eq)]
pub struct SecurityInfoArgs {
    /// Whether pre-attestation is enabled.
    pub guest_pre_attestation: bool,
    /// Keyset identifier handed to the attestation broker.
    pub guest_pre_attestation_keyset: Option<String>,
    /// Endpoint of the attestation broker.
    pub guest_pre_attestation_proxy: Option<String>,
    /// GUID under which the broker wraps the secret.
    pub guest_pre_attestation_secret_guid: Option<String>,
    /// Type tag of the wrapped secret.
    pub guest_pre_attestation_secret_type: Option<String>,
    /// Path of the platform certificate-chain file.
    pub sev_cert_chain_path: Option<String>,
    /// Guest policy bits forwarded to the broker.
    pub sev_guest_policy: u32,
}

/// Mathematical image of [`SecurityInfoArgs`].
pub ghost struct SecurityInfoArgsV {
    pub guest_pre_attestation: bool,
    pub guest_pre_attestation_keyset: Option<Seq<char>>,
    pub guest_pre_attestation_proxy: Option<Seq<char>>,
    pub guest_pre_attestation_secret_guid: Option<Seq<char>>,
    pub guest_pre_attestation_secret_type: Option<Seq<char>>,
    pub sev_cert_chain_path: Option<Seq<char>>,
    pub sev_guest_policy: u32,
}

impl View for SecurityInfoArgs {
    type V = SecurityInfoArgsV;

    open spec fn view(&self) -> SecurityInfoArgsV {
        SecurityInfoArgsV {
            guest_pre_attestation: self.guest_pre_attestation,
            guest_pre_attestation_keyset: self.guest_pre_attestation_keyset.deep_view(),
            guest_pre_attestation_proxy: self.guest_pre_attestation_proxy.deep_view(),
            guest_pre_attestation_secret_guid: self.guest_pre_attestation_secret_guid.deep_view(),
            guest_pre_attestation_secret_type: self.guest_pre_attestation_secret_type.deep_view(),
            sev_cert_chain_path: self.sev_cert_chain_path.deep_view(),
            sev_guest_policy: self.sev_guest_policy,
        }
    }
}

/// Every recognized launch option, as one record.
#[derive(Debug, Clone, PartialEq, Eq)]
pub struct DBSArgs {
    pub command: Option<Commands>,
    pub create_args: CreateArgs,
    pub boot_args: BootArgs,
    /// Path of the log file.
    pub log_file: String,
    /// Log verbosity.
    pub log_level: String,
    /// Path of the API server socket.
    pub api_sock_path: String,
    pub update_args: UpdateArgs,
    /// Attestation parameters; absent outside confidential launches.
    pub security_info_args: Option<SecurityInfoArgs>,
}

/// Mathematical image of [`DBSArgs`].
pub ghost struct DBSArgsV {
    pub command: Option<Commands>,
    pub create_args: CreateArgsV,
    pub boot_args: BootArgsV,
    pub log_file: Seq<char>,
    pub log_level: Seq<char>,
    pub api_sock_path: Seq<char>,
    pub update_args: UpdateArgs,
    pub security_info_args: Option<SecurityInfoArgsV>,
}

impl View for DBSArgs {
    type V = DBSArgsV;

    open spec fn view(&self) -> DBSArgsV {
        DBSArgsV {
            command: self.command,
            create_args: self.create_args@,
            boot_args: self.boot_args@,
            log_file: self.log_file@,
            log_level: self.log_level@,
            api_sock_path: self.api_sock_path@,
            update_args: self.update_args,
            security_info_args: match self.security_info_args {
                Some(s) => Some(s@),
                None => None,
            },
        }
    }
}

} // verus!
