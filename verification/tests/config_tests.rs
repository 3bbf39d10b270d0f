use dbs_cli::args::BootArgs;
use dbs_cli::args::CpuTopologyArgs;
use dbs_cli::args::CreateArgs;
use dbs_cli::args::DBSArgs;
use dbs_cli::args::RootfsArgs;
use dbs_cli::args::UpdateArgs;
use dbs_cli::config::build;
use dbs_cli::config::ConfigError;

fn base_args() -> DBSArgs {
    DBSArgs {
        command: None,
        create_args: CreateArgs {
            vcpu: 1,
            max_vcpu: 1,
            cpu_pm: "on".to_string(),
            vpmu_feature: 0,
            cpu_topology: CpuTopologyArgs {
                threads_per_core: 1,
                cores_per_die: 1,
                dies_per_socket: 1,
                sockets: 1,
            },
            mem_type: "shmem".to_string(),
            mem_file_path: "".to_string(),
            mem_size: 128,
            serial_path: None,
            vsock: "".to_string(),
        },
        boot_args: BootArgs {
            kernel_path: Some("/boot/vmlinuz".to_string()),
            initrd_path: None,
            firmware_path: None,
            boot_args: "console=ttyS0 root=/dev/vda1".to_string(),
            rootfs_args: RootfsArgs {
                rootfs: Some("/img/root.ext4".to_string()),
                is_root: true,
                is_read_only: false,
            },
        },
        log_file: "dbs-cli.log".to_string(),
        log_level: "Info".to_string(),
        api_sock_path: "".to_string(),
        update_args: UpdateArgs { vcpu_resize: None },
        security_info_args: None,
    }
}

#[test]
fn build_rejects_missing_kernel() {
    let mut args = base_args();
    args.boot_args.kernel_path = None;
    assert_eq!(build(&args), Err(ConfigError::MissingKernelPath));
}

#[test]
fn build_rejects_empty_kernel() {
    let mut args = base_args();
    args.boot_args.kernel_path = Some("".to_string());
    assert_eq!(build(&args), Err(ConfigError::MissingKernelPath));
}

#[test]
fn build_rejects_missing_rootfs() {
    let mut args = base_args();
    args.boot_args.rootfs_args.rootfs = None;
    assert_eq!(build(&args), Err(ConfigError::MissingRootfs));
}

#[test]
fn build_rejects_empty_rootfs() {
    let mut args = base_args();
    args.boot_args.rootfs_args.rootfs = Some("".to_string());
    assert_eq!(build(&args), Err(ConfigError::MissingRootfs));
}

#[test]
fn build_reports_kernel_before_rootfs() {
    let mut args = base_args();
    args.boot_args.kernel_path = None;
    args.boot_args.rootfs_args.rootfs = None;
    assert_eq!(build(&args), Err(ConfigError::MissingKernelPath));
}

#[test]
fn build_carries_every_parameter_over() {
    let mut args = base_args();
    args.create_args.vcpu = 2;
    args.create_args.max_vcpu = 4;
    args.create_args.mem_size = 256;
    args.create_args.serial_path = Some("/tmp/serial.sock".to_string());
    args.create_args.cpu_topology.threads_per_core = 2;
    args.boot_args.initrd_path = Some("/boot/initrd.img".to_string());
    args.boot_args.firmware_path = Some("/boot/fw.bin".to_string());
    let cfg = build(&args).unwrap();
    assert_eq!(cfg.vm.vcpu_count, 2);
    assert_eq!(cfg.vm.max_vcpu_count, 4);
    assert_eq!(cfg.vm.cpu_pm, "on");
    assert_eq!(cfg.vm.cpu_topology.threads_per_core, 2);
    assert_eq!(cfg.vm.cpu_topology.sockets, 1);
    // the vPMU level is pinned, not taken from the parameters
    assert_eq!(cfg.vm.vpmu_feature, 0);
    assert_eq!(cfg.vm.mem_type, "shmem");
    assert_eq!(cfg.vm.mem_file_path, "");
    assert_eq!(cfg.vm.mem_size_mib, 256);
    assert_eq!(cfg.vm.serial_path.as_deref(), Some("/tmp/serial.sock"));
    assert_eq!(cfg.boot.kernel_path, "/boot/vmlinuz");
    assert_eq!(cfg.boot.initrd_path.as_deref(), Some("/boot/initrd.img"));
    assert_eq!(cfg.boot.firmware_path.as_deref(), Some("/boot/fw.bin"));
    assert_eq!(cfg.boot.boot_args, "console=ttyS0 root=/dev/vda1");
    assert_eq!(cfg.block.drive_id, "rootfs");
    assert_eq!(cfg.block.path_on_host, "/img/root.ext4");
    assert!(cfg.block.is_root_device);
    assert!(!cfg.block.is_read_only);
    assert!(cfg.vsock.is_none());
}

#[test]
fn build_configures_vsock_only_when_path_given() {
    let mut args = base_args();
    args.create_args.vsock = "/tmp/vsock.sock".to_string();
    let cfg = build(&args).unwrap();
    let vsock = cfg.vsock.expect("vsock device expected");
    assert_eq!(vsock.guest_cid, 42);
    assert_eq!(vsock.uds_path, "/tmp/vsock.sock");

    let args2 = base_args();
    let cfg2 = build(&args2).unwrap();
    assert!(cfg2.vsock.is_none());
}
