//! The launch configuration builder.
//!
//! [`build`] turns the raw launch parameters into an immutable
//! [`LaunchConfig`] snapshot, refusing up front — before any side effect
//! — the parameter sets that could never boot: a missing or empty kernel
//! path, or a missing or empty root filesystem path.

use vstd::prelude::*;

use crate::args::DBSArgs;
use crate::args::DBSArgsV;

verus! {

/// Identifier given to the root block device.
pub const ROOT_DRIVE_ID: &'static str = "rootfs";

/// Context identifier given to the guest side of the vsock device.
pub const VSOCK_GUEST_CID: u64 = 42;

/// A precondition failure of the builder: the parameters could never
/// boot a VM, so no configuration is produced and no side effect occurs.
#[derive(Clone, Copy, Debug, PartialEq, Eq, Structural)]
pub enum ConfigError {
    /// No kernel image path was given (or it was empty).
    MissingKernelPath,
    /// No root filesystem path was given (or it was empty).
    MissingRootfs,
}

/// Guest CPU topology, as submitted to the VM.
#[derive(Clone, Copy, Debug, PartialEq, Eq, Structural)]
pub struct CpuTopologyConfig {
    pub threads_per_core: u8,
    pub cores_per_die: u8,
    pub dies_per_socket: u8,
    pub sockets: u8,
}

/// CPU, memory and serial-console resources of the VM.
#[derive(Debug, PartialEq, Eq)]
pub struct VmResourceConfig {
    pub vcpu_count: u8,
    pub max_vcpu_count: u8,
    pub cpu_pm: String,
    pub cpu_topology: CpuTopologyConfig,
    pub vpmu_feature: u8,
    pub mem_type: String,
    pub mem_file_path: String,
    pub mem_size_mib: usize,
    pub serial_path: Option<String>,
}

/// Mathematical image of [`VmResourceConfig`].
pub ghost struct VmResourceConfigV {
    pub vcpu_count: u8,
    pub max_vcpu_count: u8,
    pub cpu_pm: Seq<char>,
    pub cpu_topology: CpuTopologyConfig,
    pub vpmu_feature: u8,
    pub mem_type: Seq<char>,
    pub mem_file_path: Seq<char>,
    pub mem_size_mib: usize,
    pub serial_path: Option<Seq<char>>,
}

impl View for VmResourceConfig {
    type V = VmResourceConfigV;

    open spec fn view(&self) -> VmResourceConfigV {
        VmResourceConfigV {
            vcpu_count: self.vcpu_count,
            max_vcpu_count: self.max_vcpu_count,
            cpu_pm: self.cpu_pm@,
            cpu_topology: self.cpu_topology,
            vpmu_feature: self.vpmu_feature,
            mem_type: self.mem_type@,
            mem_file_path: self.mem_file_path@,
            mem_size_mib: self.mem_size_mib,
            serial_path: self.serial_path.deep_view(),
        }
    }
}

impl Clone for VmResourceConfig {
    fn clone(&self) -> (r: Self)
        ensures
            r@ == self@,
    {
        VmResourceConfig {
            vcpu_count: self.vcpu_count,
            max_vcpu_count: self.max_vcpu_count,
            cpu_pm: self.cpu_pm.clone(),
            cpu_topology: self.cpu_topology,
            vpmu_feature: self.vpmu_feature,
            mem_type: self.mem_type.clone(),
            mem_file_path: self.mem_file_path.clone(),
            mem_size_mib: self.mem_size_mib,
            serial_path: clone_opt_string(&self.serial_path),
        }
    }
}

/// The boot source of the VM: kernel, optional initrd and firmware, and
/// the kernel command line.
#[derive(Debug, PartialEq, Eq)]
pub struct BootSourceConfig {
    pub kernel_path: String,
    pub initrd_path: Option<String>,
    pub firmware_path: Option<String>,
    pub boot_args: String,
}

/// Mathematical image of [`BootSourceConfig`].
pub ghost struct BootSourceConfigV {
    pub kernel_path: Seq<char>,
    pub initrd_path: Option<Seq<char>>,
    pub firmware_path: Option<Seq<char>>,
    pub boot_args: Seq<char>,
}

impl View for BootSourceConfig {
    type V = BootSourceConfigV;

    open spec fn view(&self) -> BootSourceConfigV {
        BootSourceConfigV {
            kernel_path: self.kernel_path@,
            initrd_path: self.initrd_path.deep_view(),
            firmware_path: self.firmware_path.deep_view(),
            boot_args: self.boot_args@,
        }
    }
}

impl Clone for BootSourceConfig {
    fn clone(&self) -> (r: Self)
        ensures
            r@ == self@,
    {
        BootSourceConfig {
            kernel_path: self.kernel_path.clone(),
            initrd_path: clone_opt_string(&self.initrd_path),
            firmware_path: clone_opt_string(&self.firmware_path),
            boot_args: self.boot_args.clone(),
        }
    }
}

/// The root block device of the VM.
#[derive(Debug, PartialEq, Eq)]
pub struct BlockDeviceConfig {
    pub drive_id: String,
    pub path_on_host: String,
    pub is_root_device: bool,
    pub is_read_only: bool,
}

/// Mathematical image of [`BlockDeviceConfig`].
pub ghost struct BlockDeviceConfigV {
    pub drive_id: Seq<char>,
    pub path_on_host: Seq<char>,
    pub is_root_device: bool,
    pub is_read_only: bool,
}

impl View for BlockDeviceConfig {
    type V = BlockDeviceConfigV;

    open spec fn view(&self) -> BlockDeviceConfigV {
        BlockDeviceConfigV {
            drive_id: self.drive_id@,
            path_on_host: self.path_on_host@,
            is_root_device: self.is_root_device,
            is_read_only: self.is_read_only,
        }
    }
}

impl Clone for BlockDeviceConfig {
    fn clone(&self) -> (r: Self)
        ensures
            r@ == self@,
    {
        BlockDeviceConfig {
            drive_id: self.drive_id.clone(),
            path_on_host: self.path_on_host.clone(),
            is_root_device: self.is_root_device,
            is_read_only: self.is_read_only,
        }
    }
}

/// The vsock device of the VM, when one is configured.
#[derive(Debug, PartialEq, Eq)]
pub struct VsockConfig {
    pub guest_cid: u64,
    pub uds_path: String,
}

/// Mathematical image of [`VsockConfig`].
pub ghost struct VsockConfigV {
    pub guest_cid: u64,
    pub uds_path: Seq<char>,
}

impl View for VsockConfig {
    type V = VsockConfigV;

    open spec fn view(&self) -> VsockConfigV {
        VsockConfigV {
            guest_cid: self.guest_cid,
            uds_path: self.uds_path@,
        }
    }
}

impl Clone for VsockConfig {
    fn clone(&self) -> (r: Self)
        ensures
            r@ == self@,
    {
        VsockConfig {
            guest_cid: self.guest_cid,
            uds_path: self.uds_path.clone(),
        }
    }
}

/// The immutable launch configuration snapshot: everything submitted to
/// the VM before boot.
#[derive(Debug, PartialEq, Eq)]
pub struct LaunchConfig {
    pub vm: VmResourceConfig,
    pub boot: BootSourceConfig,
    pub block: BlockDeviceConfig,
    pub vsock: Option<VsockConfig>,
}

/// Mathematical image of [`LaunchConfig`].
pub ghost struct LaunchConfigV {
    pub vm: VmResourceConfigV,
    pub boot: BootSourceConfigV,
    pub block: BlockDeviceConfigV,
    pub vsock: Option<VsockConfigV>,
}

impl View for LaunchConfig {
    type V = LaunchConfigV;

    open spec fn view(&self) -> LaunchConfigV {
        LaunchConfigV {
            vm: self.vm@,
            boot: self.boot@,
            block: self.block@,
            vsock: match self.vsock {
                Some(v) => Some(v@),
                None => None,
            },
        }
    }
}

impl Clone for LaunchConfig {
    fn clone(&self) -> (r: Self)
        ensures
            r@ == self@,
    {
        LaunchConfig {
            vm: self.vm.clone(),
            boot: self.boot.clone(),
            block: self.block.clone(),
            vsock: match &self.vsock {
                Some(v) => Some(v.clone()),
                None => None,
            },
        }
    }
}

/// Copies an optional string; the copy has the same presence and the
/// same characters.
pub fn clone_opt_string(o: &Option<String>) -> (r: Option<String>)
    ensures
        r.deep_view() == o.deep_view(),
{
    match o {
        Some(s) => Some(s.clone()),
        None => None,
    }
}

/// The kernel path is absent or empty: nothing could boot.
pub open spec fn missing_kernel(a: DBSArgsV) -> bool {
    a.boot_args.kernel_path is None || a.boot_args.kernel_path->0.len() == 0
}

/// The root filesystem path is absent or empty: nothing could boot.
pub open spec fn missing_rootfs(a: DBSArgsV) -> bool {
    a.boot_args.rootfs_args.rootfs is None || a.boot_args.rootfs_args.rootfs->0.len() == 0
}

/// A vsock device is configured exactly when a socket path was given.
pub open spec fn wants_vsock(a: DBSArgsV) -> bool {
    a.create_args.vsock.len() != 0
}

/// What [`build`] produces from parameters that pass its preconditions.
pub open spec fn spec_build(a: DBSArgsV) -> LaunchConfigV {
    LaunchConfigV {
        vm: VmResourceConfigV {
            vcpu_count: a.create_args.vcpu,
            max_vcpu_count: a.create_args.max_vcpu,
            cpu_pm: a.create_args.cpu_pm,
            cpu_topology: CpuTopologyConfig {
                threads_per_core: a.create_args.cpu_topology.threads_per_core,
                cores_per_die: a.create_args.cpu_topology.cores_per_die,
                dies_per_socket: a.create_args.cpu_topology.dies_per_socket,
                sockets: a.create_args.cpu_topology.sockets,
            },
            vpmu_feature: 0,
            mem_type: a.create_args.mem_type,
            mem_file_path: a.create_args.mem_file_path,
            mem_size_mib: a.create_args.mem_size,
            serial_path: a.create_args.serial_path,
        },
        boot: BootSourceConfigV {
            kernel_path: a.boot_args.kernel_path->0,
            initrd_path: a.boot_args.initrd_path,
            firmware_path: a.boot_args.firmware_path,
            boot_args: a.boot_args.boot_args,
        },
        block: BlockDeviceConfigV {
            drive_id: ROOT_DRIVE_ID@,
            path_on_host: a.boot_args.rootfs_args.rootfs->0,
            is_root_device: a.boot_args.rootfs_args.is_root,
            is_read_only: a.boot_args.rootfs_args.is_read_only,
        },
        vsock: if wants_vsock(a) {
            Some(VsockConfigV { guest_cid: VSOCK_GUEST_CID, uds_path: a.create_args.vsock })
        } else {
            None
        },
    }
}

/// Assembles the immutable launch configuration from the raw launch
/// parameters.
///
/// The kernel path and the root filesystem path are checked first, and
/// a missing one is reported before anything else happens; every other
/// parameter is carried over unchanged. A vsock device is configured
/// exactly when a non-empty vsock socket path was given.
///
/// A serial device file lingering at the configured serial path must be
/// removed before the configuration is submitted; that deletion is I/O
/// and falls to the caller, between this call and the first submission.
pub fn build(args: &DBSArgs) -> (r: Result<LaunchConfig, ConfigError>)
    ensures
        r is Ok <==> !missing_kernel(args@) && !missing_rootfs(args@),
        missing_kernel(args@) ==> r == Err::<LaunchConfig, ConfigError>(
            ConfigError::MissingKernelPath,
        ),
        !missing_kernel(args@) && missing_rootfs(args@) ==> r == Err::<LaunchConfig, ConfigError>(
            ConfigError::MissingRootfs,
        ),
        r matches Ok(cfg) ==> cfg@ == spec_build(args@),
{
    let kernel_path: String = match &args.boot_args.kernel_path {
        Some(k) if !k.as_str().is_empty() => k.clone(),
        _ => {
            return Err(ConfigError::MissingKernelPath);
        },
    };
    let rootfs_path: String = match &args.boot_args.rootfs_args.rootfs {
        Some(p) if !p.as_str().is_empty() => p.clone(),
        _ => {
            return Err(ConfigError::MissingRootfs);
        },
    };

    let vm = VmResourceConfig {
        vcpu_count: args.create_args.vcpu,
        max_vcpu_count: args.create_args.max_vcpu,
        cpu_pm: args.create_args.cpu_pm.clone(),
        cpu_topology: CpuTopologyConfig {
            threads_per_core: args.create_args.cpu_topology.threads_per_core,
            cores_per_die: args.create_args.cpu_topology.cores_per_die,
            dies_per_socket: args.create_args.cpu_topology.dies_per_socket,
            sockets: args.create_args.cpu_topology.sockets,
        },
        vpmu_feature: 0,
        mem_type: args.create_args.mem_type.clone(),
        mem_file_path: args.create_args.mem_file_path.clone(),
        mem_size_mib: args.create_args.mem_size,
        serial_path: clone_opt_string(&args.create_args.serial_path),
    };

    let boot = BootSourceConfig {
        kernel_path,
        initrd_path: clone_opt_string(&args.boot_args.initrd_path),
        firmware_path: clone_opt_string(&args.boot_args.firmware_path),
        boot_args: args.boot_args.boot_args.clone(),
    };

    let block = BlockDeviceConfig {
        drive_id: ROOT_DRIVE_ID.to_owned(),
        path_on_host: rootfs_path,
        is_root_device: args.boot_args.rootfs_args.is_root,
        is_read_only: args.boot_args.rootfs_args.is_read_only,
    };

    let vsock: Option<VsockConfig> = if args.create_args.vsock.as_str().is_empty() {
        None
    } else {
        Some(
            VsockConfig {
                guest_cid: VSOCK_GUEST_CID,
                uds_path: args.create_args.vsock.clone(),
            },
        )
    };

    Ok(LaunchConfig { vm, boot, block, vsock })
}

} // verus!
