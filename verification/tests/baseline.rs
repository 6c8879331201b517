use bootc_install::baseline::{
    install_create_rootfs, mkfs, mkfs_with_uuid, plan_rootfs, BlockSetup, Filesystem,
    InstallBlockDeviceOpts, MountLayout, ProvisionPlan,
};
use bootc_install::partition::{partition_table_for, sgdisk, sgdisk_partition, Arch};
use bootc_install::command::{CommandSpec, Output, Place, Step};
use bootc_install::error::{ErrorKind, InstallError};

const BOOT_UUID: &str = "11111111-2222-4333-8444-555555555555";
const ROOT_UUID: &str = "aaaaaaaa-bbbb-4ccc-9ddd-eeeeeeeeeeee";

fn opts(wipe: bool) -> InstallBlockDeviceOpts {
    InstallBlockDeviceOpts {
        device: "/dev/vda".to_string(),
        wipe,
        block_setup: BlockSetup::Direct,
        filesystem: Filesystem::Xfs,
        root_size: None,
    }
}

fn strings(v: &[&str]) -> Vec<String> {
    v.iter().map(|s| s.to_string()).collect()
}

fn plan(opts: &InstallBlockDeviceOpts, children: &[&str], arch: &str) -> ProvisionPlan {
    let layout = MountLayout::standard();
    let device = layout.reroot(&opts.device);
    plan_rootfs(opts, &strings(children), arch, &layout, device, BOOT_UUID, ROOT_UUID)
}

fn commands(steps: &[Step]) -> Vec<&CommandSpec> {
    steps
        .iter()
        .filter_map(|s| match s {
            Step::Run { command } => Some(command),
            _ => None,
        })
        .collect()
}

fn wiped(steps: &[Step]) -> Vec<&str> {
    steps
        .iter()
        .filter_map(|s| match s {
            Step::Wipe { device } => Some(device.as_str()),
            _ => None,
        })
        .collect()
}

#[test]
fn standard_layout_paths() {
    let l = MountLayout::standard();
    assert_eq!(l.mntdir, "/run/bootc/mounts");
    assert_eq!(l.devdir, "/run/bootc/mounts/dev");
    assert_eq!(l.rootfs, "/run/bootc/mounts/rootfs");
    assert_eq!(l.bootfs, "/run/bootc/mounts/boot");
    assert_eq!(l.root_boot, "/run/bootc/mounts/rootfs/boot");
    assert_eq!(l.efi, "/run/bootc/mounts/rootfs/boot/efi");
}

#[test]
fn device_is_rerooted_under_the_scratch_dev() {
    let l = MountLayout::standard();
    assert_eq!(l.reroot("/dev/vda").as_deref(), Some("/run/bootc/mounts/dev/vda"));
    assert_eq!(
        l.reroot("/dev/disk/by-id/x").as_deref(),
        Some("/run/bootc/mounts/dev/disk/by-id/x")
    );
    assert_eq!(l.reroot("vda"), None);
    assert_eq!(l.reroot("/devices/vda"), None);
    assert_eq!(l.reroot("/sys/block/vda"), None);
}

#[test]
fn existing_partitions_without_wipe_are_refused() {
    let p = plan(&opts(false), &["/dev/vda1", "/dev/vda2"], "x86_64");
    assert!(p.steps.is_empty());
    let e = p.outcome.unwrap_err();
    assert_eq!(e.kind(), ErrorKind::Safety);
    match e {
        InstallError::ExistingPartitions { device } => assert_eq!(device, "/dev/vda"),
        other => panic!("unexpected error {other:?}"),
    }
}

#[test]
fn wipe_erases_children_then_parent_before_partitioning() {
    let p = plan(&opts(true), &["/dev/vda1", "/dev/vda2", "/dev/vda3"], "x86_64");
    assert_eq!(wiped(&p.steps), vec!["/dev/vda1", "/dev/vda2", "/dev/vda3", "/dev/vda"]);
    for (i, step) in p.steps.iter().enumerate() {
        assert_eq!(matches!(step, Step::Wipe { .. }), i < 4, "step {i}");
    }
    let sgdisk_at = p
        .steps
        .iter()
        .position(|s| matches!(s, Step::Run { command } if command.program == "sgdisk"))
        .unwrap();
    assert!(sgdisk_at > 3);
    assert!(p.outcome.is_ok());
}

#[test]
fn wipe_of_a_device_without_children_still_wipes_the_device() {
    let p = plan(&opts(true), &[], "x86_64");
    assert_eq!(wiped(&p.steps), vec!["/dev/vda"]);
    assert!(matches!(p.steps[0], Step::Wipe { .. }));
}

#[test]
fn empty_device_without_wipe_is_not_wiped() {
    let p = plan(&opts(false), &[], "x86_64");
    assert!(wiped(&p.steps).is_empty());
    assert!(p.outcome.is_ok());
}

#[test]
fn final_kargs_and_boot_spec() {
    for wipe in [true, false] {
        let p = plan(&opts(wipe), &[], "x86_64");
        let root = p.outcome.unwrap();
        assert_eq!(
            root.kargs,
            vec![
                format!("root=UUID={ROOT_UUID}"),
                "rw".to_string(),
                format!("boot=UUID={BOOT_UUID}"),
            ]
        );
        assert_eq!(root.device, "/run/bootc/mounts/dev/vda");
        assert_eq!(root.rootfs, "/run/bootc/mounts/rootfs");
        assert_eq!(root.boot.source, format!("UUID={BOOT_UUID}"));
        assert_eq!(root.boot.target, "/boot");
        assert_eq!(root.boot.fstype, "auto");
        assert_eq!(root.boot.options, None);
        assert_eq!(root.get_boot_uuid().unwrap(), BOOT_UUID);
    }
}

#[test]
fn full_plan_on_x86_64() {
    let p = plan(&opts(true), &["/dev/vda1"], "x86_64");
    let dev = "/run/bootc/mounts/dev/vda";
    let shown: Vec<String> = p
        .steps
        .iter()
        .map(|s| match s {
            Step::Wipe { device } => format!("wipe {device}"),
            Step::RemoveDirAll { path } => format!("rm -r {path}"),
            Step::CreateDirAll { path } => format!("mkdir -p {path}"),
            Step::CreateDir { path } => format!("mkdir {path}"),
            Step::Run { command } => format!("{} {}", command.program, command.args.join(" ")),
            Step::RereadPartitionTable { device } => format!("reread {device}"),
            Step::Settle => "settle".to_string(),
            Step::Mount { device, target } => format!("mount {device} {target}"),
            Step::Label { path, as_path, recurse } => format!("label {path} {as_path} {recurse}"),
            Step::OpenRoot { path } => format!("open {path}"),
            other => panic!("unexpected step {other:?}"),
        })
        .collect();
    let expected = vec![
        "wipe /dev/vda1".to_string(),
        "wipe /dev/vda".to_string(),
        "rm -r /run/bootc/mounts".to_string(),
        "mkdir -p /run/bootc/mounts/dev".to_string(),
        "mount devtmpfs -t devtmpfs /run/bootc/mounts/dev".to_string(),
        "mkdir -p /run/bootc/mounts/rootfs".to_string(),
        "mkdir -p /run/bootc/mounts/boot".to_string(),
        format!(
            "sgdisk -Z {dev} -U R \
             -n 1:0:+1M -c 1:BIOS-BOOT -t 1:21686148-6449-6E6F-744E-656564454649 \
             -n 2:0:+512M -c 2:EFI-SYSTEM -t 2:C12A7328-F81F-11D2-BA4B-00A0C93EC93B \
             -n 3:0:+510M -c 3:boot \
             -n 4:0:0 -c 4:root -t 4:0FC63DAF-8483-4772-8E79-3D69D8477DE4"
        ),
        format!("reread {dev}"),
        "settle".to_string(),
        format!("mkfs.ext4 -U {BOOT_UUID} -L boot {dev}3"),
        format!("mkfs.xfs -m uuid={ROOT_UUID} -L root {dev}4"),
        format!("mount {dev}4 /run/bootc/mounts/rootfs"),
        "label /run/bootc/mounts/rootfs / false".to_string(),
        "open /run/bootc/mounts/rootfs".to_string(),
        "mkdir /run/bootc/mounts/rootfs/boot".to_string(),
        "label /run/bootc/mounts/rootfs/boot /boot false".to_string(),
        format!("mount {dev}3 /run/bootc/mounts/rootfs/boot"),
        "label /run/bootc/mounts/rootfs/boot /boot false".to_string(),
        format!("mkfs.fat {dev}2 -n EFI-SYSTEM"),
        "mkdir /run/bootc/mounts/rootfs/boot/efi".to_string(),
        format!("mount {dev}2 /run/bootc/mounts/rootfs/boot/efi"),
    ];
    assert_eq!(shown, expected);
    assert!(p.outcome.is_ok());
}

#[test]
fn how_commands_are_run() {
    let p = plan(&opts(false), &[], "x86_64");
    let cs = commands(&p.steps);
    let by_program = |name: &str| *cs.iter().find(|c| c.program == name).unwrap();
    let mount = by_program("mount");
    assert_eq!(mount.description, "Mounting devtmpfs");
    assert_eq!(mount.output, Output::Inherit);
    let sgdisk = by_program("sgdisk");
    assert_eq!(sgdisk.description, "Initializing partitions");
    assert_eq!(sgdisk.output, Output::Discard);
    let mkfs = by_program("mkfs.ext4");
    assert_eq!(mkfs.description, "Creating filesystem");
    assert_eq!(mkfs.output, Output::Discard);
    let esp = by_program("mkfs.fat");
    assert_eq!(esp.description, "Creating ESP filesystem");
    assert_eq!(esp.output, Output::OnFailure);
    for c in cs {
        assert!(c.announce);
        assert_eq!(c.place, Place::Here);
    }
}

#[test]
fn aarch64_reserves_the_first_partition() {
    let p = plan(&opts(false), &[], "aarch64");
    let cs = commands(&p.steps);
    let sgdisk = cs.iter().find(|c| c.program == "sgdisk").unwrap();
    assert_eq!(
        sgdisk.args[4..10].to_vec(),
        strings(&[
            "-n",
            "1:0:+1M",
            "-c",
            "1:reserved",
            "-t",
            "1:8DA63339-0007-60C0-C436-083AC8230908"
        ])
    );
    assert!(cs.iter().any(|c| c.program == "mkfs.fat"));
    assert!(p.outcome.is_ok());
}

#[test]
fn unsupported_architecture_stops_before_partitioning() {
    for arch in ["ppc64", "s390x", "riscv64", ""] {
        let p = plan(&opts(true), &["/dev/vda1"], arch);
        assert!(commands(&p.steps).iter().all(|c| c.program == "mount"));
        assert_eq!(p.steps.len(), 7);
        let e = p.outcome.unwrap_err();
        assert_eq!(e.kind(), ErrorKind::Configuration);
        match e {
            InstallError::UnsupportedArchitecture { arch: a } => assert_eq!(a, arch),
            other => panic!("unexpected error {other:?}"),
        }
    }
}

#[test]
fn device_outside_dev_stops_after_the_scratch_mount() {
    let mut o = opts(true);
    o.device = "/sys/block/vda".to_string();
    let p = plan(&o, &[], "x86_64");
    assert_eq!(p.steps.len(), 4);
    assert!(matches!(&p.steps[3], Step::Run { command } if command.program == "mount"));
    match p.outcome.unwrap_err() {
        InstallError::DeviceNotUnderDev { device } => assert_eq!(device, "/sys/block/vda"),
        other => panic!("unexpected error {other:?}"),
    }
}

#[test]
fn root_size_sets_the_root_extent() {
    let mut o = opts(false);
    o.root_size = Some("10G".to_string());
    let p = plan(&o, &[], "x86_64");
    let cs = commands(&p.steps);
    let sgdisk = cs.iter().find(|c| c.program == "sgdisk").unwrap();
    assert!(sgdisk.args.contains(&"4:0:10240M".to_string()));
    assert!(!sgdisk.args.contains(&"4:0:0".to_string()));
}

#[test]
fn invalid_root_size_stops_before_the_mount_points() {
    let mut o = opts(false);
    o.root_size = Some("ten".to_string());
    let p = plan(&o, &[], "x86_64");
    assert_eq!(p.steps.len(), 3);
    let e = p.outcome.unwrap_err();
    assert_eq!(e.kind(), ErrorKind::Format);
    assert!(matches!(e, InstallError::InvalidSize { text } if text == "ten"));
}

#[test]
fn tpm2_luks_is_rejected_after_partitioning() {
    let mut o = opts(false);
    o.block_setup = BlockSetup::Tpm2Luks;
    let p = plan(&o, &[], "x86_64");
    let cs = commands(&p.steps);
    assert!(cs.iter().any(|c| c.program == "sgdisk"));
    assert!(cs.iter().all(|c| !c.program.starts_with("mkfs")));
    assert!(matches!(p.steps.last(), Some(Step::Settle)));
    let e = p.outcome.unwrap_err();
    assert!(matches!(e, InstallError::Tpm2LuksNotImplemented));
    assert_eq!(e.kind(), ErrorKind::Configuration);
}

#[test]
fn root_filesystem_type_is_configurable() {
    for (fs, program, uuid_args) in [
        (Filesystem::Xfs, "mkfs.xfs", vec!["-m".to_string(), format!("uuid={ROOT_UUID}")]),
        (Filesystem::Ext4, "mkfs.ext4", vec!["-U".to_string(), ROOT_UUID.to_string()]),
        (Filesystem::Btrfs, "mkfs.btrfs", vec!["-U".to_string(), ROOT_UUID.to_string()]),
    ] {
        let mut o = opts(false);
        o.filesystem = fs;
        let p = plan(&o, &[], "x86_64");
        let cs = commands(&p.steps);
        let root = cs.iter().rev().find(|c| c.program.starts_with("mkfs.") && c.args.contains(&"root".to_string())).unwrap();
        assert_eq!(root.program, program);
        assert_eq!(root.args[..2].to_vec(), uuid_args);
        assert_eq!(root.args[2..].to_vec(), strings(&["-L", "root", "/run/bootc/mounts/dev/vda4"]));
    }
}

#[test]
fn install_create_rootfs_uses_fresh_uuids() {
    let a = install_create_rootfs(&opts(true), &strings(&["/dev/vda1"]), "x86_64");
    let b = install_create_rootfs(&opts(true), &strings(&["/dev/vda1"]), "x86_64");
    let (ra, rb) = (a.outcome.unwrap(), b.outcome.unwrap());
    assert_eq!(ra.kargs.len(), 3);
    assert!(ra.kargs[0].starts_with("root=UUID="));
    assert_eq!(ra.kargs[1], "rw");
    assert!(ra.kargs[2].starts_with("boot=UUID="));
    let boot = ra.get_boot_uuid().unwrap().to_string();
    let root = ra.kargs[0]["root=UUID=".len()..].to_string();
    assert_ne!(boot, root);
    assert_ne!(ra.kargs, rb.kargs);
    for u in [&boot, &root] {
        assert_eq!(u.len(), 36);
        for (i, c) in u.chars().enumerate() {
            if [8, 13, 18, 23].contains(&i) {
                assert_eq!(c, '-');
            } else {
                assert!(c.is_ascii_digit() || ('a'..='f').contains(&c));
            }
        }
        assert_eq!(u.as_bytes()[14], b'4');
        assert!(b"89ab".contains(&u.as_bytes()[19]));
    }
    let cs = commands(&a.steps);
    assert!(cs.iter().any(|c| c.program == "mkfs.ext4" && c.args.contains(&boot)));
    assert!(cs.iter().any(|c| c.program == "mkfs.xfs" && c.args.contains(&format!("uuid={root}"))));
    assert_eq!(a.steps.len(), 22);
}

#[test]
fn install_create_rootfs_refuses_partitions_without_wipe() {
    let p = install_create_rootfs(&opts(false), &strings(&["/dev/vda1"]), "x86_64");
    assert!(p.steps.is_empty());
    assert_eq!(p.outcome.unwrap_err().kind(), ErrorKind::Safety);
}

#[test]
fn mkfs_generates_a_uuid_and_passes_options() {
    let extra = strings(&["-O", "verity"]);
    let (c, uuid) = mkfs("/dev/vda3", Filesystem::Ext4, Some("boot"), &extra);
    assert_eq!(uuid.len(), 36);
    assert_eq!(c.program, "mkfs.ext4");
    assert_eq!(
        c.args,
        vec!["-U".to_string(), uuid.clone(), "-L".into(), "boot".into(), "-O".into(), "verity".into(), "/dev/vda3".into()]
    );
    let (_, other) = mkfs("/dev/vda3", Filesystem::Ext4, Some("boot"), &extra);
    assert_ne!(uuid, other);
}

#[test]
fn mkfs_without_label() {
    let c = mkfs_with_uuid("/dev/vda4", Filesystem::Btrfs, None, &Vec::new(), ROOT_UUID);
    assert_eq!(c.program, "mkfs.btrfs");
    assert_eq!(c.args, strings(&["-U", ROOT_UUID, "/dev/vda4"]));
}

#[test]
fn sgdisk_partition_arguments() {
    let mut args = strings(&["-Z"]);
    sgdisk_partition(&mut args, 3, "0:+510M", "boot", None);
    assert_eq!(args, strings(&["-Z", "-n", "3:0:+510M", "-c", "3:boot"]));
    sgdisk_partition(&mut args, 12, "0:0", "root", Some("0FC6"));
    assert_eq!(
        args[5..].to_vec(),
        strings(&["-n", "12:0:0", "-c", "12:root", "-t", "12:0FC6"])
    );
}

#[test]
fn partition_table_is_fixed() {
    let t = partition_table_for(Arch::X86_64, Some(2048));
    let rows: Vec<(u32, &str, &str, Option<&str>)> = t
        .iter()
        .map(|p| (p.number, p.extent.as_str(), p.name.as_str(), p.typecode.as_deref()))
        .collect();
    assert_eq!(
        rows,
        vec![
            (1, "0:+1M", "BIOS-BOOT", Some("21686148-6449-6E6F-744E-656564454649")),
            (2, "0:+512M", "EFI-SYSTEM", Some("C12A7328-F81F-11D2-BA4B-00A0C93EC93B")),
            (3, "0:+510M", "boot", None),
            (4, "0:2048M", "root", Some("0FC63DAF-8483-4772-8E79-3D69D8477DE4")),
        ]
    );
    let c = sgdisk("/dev/vdb", &t);
    assert_eq!(c.args[..4].to_vec(), strings(&["-Z", "/dev/vdb", "-U", "R"]));
    assert_eq!(c.args.len(), 4 + 6 + 6 + 4 + 6);
}

#[test]
fn architectures_and_filesystems_by_name() {
    assert_eq!(Arch::from_name("x86_64"), Some(Arch::X86_64));
    assert_eq!(Arch::from_name("aarch64"), Some(Arch::Aarch64));
    assert_eq!(Arch::from_name("ppc64"), None);
    assert_eq!(Arch::from_name("X86_64"), None);
    assert_eq!(Filesystem::Xfs.name(), "xfs");
    assert_eq!(Filesystem::Ext4.name(), "ext4");
    assert_eq!(Filesystem::Btrfs.name(), "btrfs");
    assert_eq!(Filesystem::default(), Filesystem::Xfs);
    assert_eq!(BlockSetup::default(), BlockSetup::Direct);
}
