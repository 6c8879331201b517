//! The baseline installer: a GPT with a boot and a root partition, each
//! holding a plain filesystem, laid out on an empty or explicitly wiped
//! block device.

use vstd::prelude::*;
use vstd::string::StringExecFns;
use crate::command::{push_step, push_str, CommandSpec, CommandView, Output, Place, Step, StepView};
use crate::error::{ErrorKind, InstallError, InstallErrorView};
use crate::ident::{is_random_uuid_text, new_uuid_text};
use crate::mountspec::{
    auto_fstype, lemma_uuid_source_roundtrip, source_uuid, uuid_source, MountSpec, MountSpecView,
};
use crate::partition::{
    arch_named, partition_table, partition_table_for, sgdisk, sgdisk_command, Arch, Partition,
    PartitionView, BOOTPN, EFIPN, ROOTPN,
};
use crate::paths::{join, joined_path, path_without_prefix, strip_prefix};
use crate::setup::{checked_root_setup, RootSetup, RootSetupView};
use crate::size::{parse_size_mib, size_mib};
use crate::text::{decimal, u64_to_decimal};

verus! {

broadcast use vstd::string::group_string_axioms;

/// The filesystems the root can be formatted with.
#[derive(Debug, Clone, Copy, PartialEq, Eq, Structural)]
pub enum Filesystem {
    Xfs,
    Ext4,
    Btrfs,
}

impl Default for Filesystem {
    fn default() -> (fs: Filesystem)
        ensures
            fs == Filesystem::Xfs,
    {
        Filesystem::Xfs
    }
}

/// The name of a filesystem as the `mkfs.*` tools spell it.
pub open spec fn filesystem_name(fs: Filesystem) -> Seq<char> {
    match fs {
        Filesystem::Xfs => "xfs"@,
        Filesystem::Ext4 => "ext4"@,
        Filesystem::Btrfs => "btrfs"@,
    }
}

impl Filesystem {
    /// The name of the filesystem as the `mkfs.*` tools spell it.
    pub fn name(&self) -> (n: &'static str)
        ensures
            n@ == filesystem_name(*self),
    {
        match self {
            Filesystem::Xfs => "xfs",
            Filesystem::Ext4 => "ext4",
            Filesystem::Btrfs => "btrfs",
        }
    }
}

/// How the root filesystem sits on the block device.
#[derive(Debug, Clone, Copy, PartialEq, Eq, Structural)]
pub enum BlockSetup {
    /// The filesystem is written straight to the partition.
    Direct,
    /// The filesystem is encrypted and unlocked by the TPM.
    Tpm2Luks,
}

impl Default for BlockSetup {
    fn default() -> (b: BlockSetup)
        ensures
            b == BlockSetup::Direct,
    {
        BlockSetup::Direct
    }
}

/// The arguments by which a `mkfs.*` tool is told the UUID of the
/// filesystem it creates.
pub open spec fn mkfs_uuid_args(fs: Filesystem, uuid: Seq<char>) -> Seq<Seq<char>> {
    match fs {
        Filesystem::Xfs => seq!["-m"@, "uuid="@ + uuid],
        Filesystem::Ext4 | Filesystem::Btrfs => seq!["-U"@, uuid],
    }
}

/// The arguments by which a `mkfs.*` tool is told the label, if any.
pub open spec fn mkfs_label_args(label: Option<Seq<char>>) -> Seq<Seq<char>> {
    match label {
        Some(l) => seq!["-L"@, l],
        None => Seq::empty(),
    }
}

/// The command that creates a filesystem of type `fs` with the given UUID
/// and label on `dev`; `opts` are passed through before the device. What
/// the tool prints is thrown away.
pub open spec fn mkfs_command(
    dev: Seq<char>,
    fs: Filesystem,
    label: Option<Seq<char>>,
    opts: Seq<Seq<char>>,
    uuid: Seq<char>,
) -> CommandView {
    CommandView {
        description: "Creating filesystem"@,
        program: "mkfs."@ + filesystem_name(fs),
        args: mkfs_uuid_args(fs, uuid) + mkfs_label_args(label) + opts + seq![dev],
        announce: true,
        output: Output::Discard,
        place: Place::Here,
    }
}

/// The command that creates a filesystem with a UUID chosen by the caller.
pub fn mkfs_with_uuid(
    dev: &str,
    fs: Filesystem,
    label: Option<&str>,
    opts: &Vec<String>,
    uuid: &str,
) -> (c: CommandSpec)
    ensures
        c@ == mkfs_command(
            dev@,
            fs,
            match label {
                Some(l) => Some(l@),
                None => None,
            },
            opts.deep_view(),
            uuid@,
        ),
{
    let mut program = String::from_str("mkfs.");
    program.append(fs.name());
    let mut args: Vec<String> = Vec::new();
    assert(args.deep_view() =~= Seq::<Seq<char>>::empty());
    match fs {
        Filesystem::Xfs => {
            push_str(&mut args, "-m");
            let mut value = String::from_str("uuid=");
            value.append(uuid);
            push_str(&mut args, value.as_str());
        },
        Filesystem::Ext4 | Filesystem::Btrfs => {
            push_str(&mut args, "-U");
            push_str(&mut args, uuid);
        },
    }
    assert(args.deep_view() =~= mkfs_uuid_args(fs, uuid@));
    match label {
        Some(l) => {
            push_str(&mut args, "-L");
            push_str(&mut args, l);
            assert(args.deep_view() =~= mkfs_uuid_args(fs, uuid@) + seq!["-L"@, l@]);
        },
        None => {
            assert(args.deep_view() =~= mkfs_uuid_args(fs, uuid@) + Seq::<Seq<char>>::empty());
        },
    }
    let ghost head = args.deep_view();
    let ghost extra = opts.deep_view();
    let mut i: usize = 0;
    assert(head + extra.take(0) =~= head);
    while i < opts.len()
        invariant
            i <= opts.len(),
            extra == opts.deep_view(),
            args.deep_view() == head + extra.take(i as int),
        decreases opts.len() - i,
    {
        push_str(&mut args, opts[i].as_str());
        assert(extra[i as int] == opts@[i as int]@);
        assert((head + extra.take(i as int)).push(extra[i as int]) =~= head + extra.take(i + 1));
        i += 1;
    }
    assert(extra.take(i as int) =~= extra);
    push_str(&mut args, dev);
    assert(args.deep_view() =~= head + extra + seq![dev@]);
    CommandSpec {
        description: String::from_str("Creating filesystem"),
        program,
        args,
        announce: true,
        output: Output::Discard,
        place: Place::Here,
    }
}

/// The command that creates a filesystem under a fresh random UUID,
/// together with that UUID.
pub fn mkfs(dev: &str, fs: Filesystem, label: Option<&str>, opts: &Vec<String>) -> (r: (
    CommandSpec,
    String,
))
    ensures
        is_random_uuid_text(r.1@),
        r.0@ == mkfs_command(
            dev@,
            fs,
            match label {
                Some(l) => Some(l@),
                None => None,
            },
            opts.deep_view(),
            r.1@,
        ),
{
    let uuid = new_uuid_text();
    let command = mkfs_with_uuid(dev, fs, label, opts, uuid.as_str());
    (command, uuid)
}

/// Options for installing to a block device.
#[derive(Debug)]
pub struct InstallBlockDeviceOpts {
    /// The target block device. The whole device is taken.
    pub device: String,
    /// Whether existing data on the device may be wiped.
    pub wipe: bool,
    pub block_setup: BlockSetup,
    /// The filesystem type of the root.
    pub filesystem: Filesystem,
    /// The size of the root partition; by default the rest of the device.
    pub root_size: Option<String>,
}

/// The mathematical value of [`InstallBlockDeviceOpts`].
pub struct BlockDeviceOptsView {
    pub device: Seq<char>,
    pub wipe: bool,
    pub block_setup: BlockSetup,
    pub filesystem: Filesystem,
    pub root_size: Option<Seq<char>>,
}

impl View for InstallBlockDeviceOpts {
    type V = BlockDeviceOptsView;

    open spec fn view(&self) -> BlockDeviceOptsView {
        BlockDeviceOptsView {
            device: self.device@,
            wipe: self.wipe,
            block_setup: self.block_setup,
            filesystem: self.filesystem,
            root_size: self.root_size.deep_view(),
        }
    }
}

/// The scratch directories under which the target is assembled.
#[derive(Debug)]
pub struct MountLayout {
    /// The directory that holds all others.
    pub mntdir: String,
    /// Where a fresh view of the device nodes is mounted.
    pub devdir: String,
    /// Where the root filesystem is mounted.
    pub rootfs: String,
    /// A mount point for boot beside the root.
    pub bootfs: String,
    /// The `boot` directory inside the root, where boot is mounted.
    pub root_boot: String,
    /// The directory inside boot where the EFI system partition is mounted.
    pub efi: String,
}

/// The mathematical value of a [`MountLayout`].
pub struct MountLayoutView {
    pub mntdir: Seq<char>,
    pub devdir: Seq<char>,
    pub rootfs: Seq<char>,
    pub bootfs: Seq<char>,
    pub root_boot: Seq<char>,
    pub efi: Seq<char>,
}

impl View for MountLayout {
    type V = MountLayoutView;

    open spec fn view(&self) -> MountLayoutView {
        MountLayoutView {
            mntdir: self.mntdir@,
            devdir: self.devdir@,
            rootfs: self.rootfs@,
            bootfs: self.bootfs@,
            root_boot: self.root_boot@,
            efi: self.efi@,
        }
    }
}

/// The layout under the installer's runtime directory.
pub open spec fn standard_layout() -> MountLayoutView {
    let mntdir = joined_path("/run/bootc"@, "mounts"@);
    let rootfs = joined_path(mntdir, "rootfs"@);
    let root_boot = joined_path(rootfs, "boot"@);
    MountLayoutView {
        mntdir,
        devdir: joined_path(mntdir, "dev"@),
        rootfs,
        bootfs: joined_path(mntdir, "boot"@),
        root_boot,
        efi: joined_path(root_boot, "efi"@),
    }
}

/// The path of `device` inside the fresh view of the device nodes at
/// `devdir`; none if `device` does not lie under `/dev/`.
pub open spec fn rerooted_device(device: Seq<char>, devdir: Seq<char>) -> Option<Seq<char>> {
    match path_without_prefix(device, "/dev/"@) {
        Some(rel) => Some(joined_path(devdir, rel)),
        None => None,
    }
}

impl MountLayout {
    /// The layout under the installer's runtime directory.
    pub fn standard() -> (layout: MountLayout)
        ensures
            layout@ == standard_layout(),
    {
        let mntdir = join("/run/bootc", "mounts");
        let devdir = join(mntdir.as_str(), "dev");
        let rootfs = join(mntdir.as_str(), "rootfs");
        let bootfs = join(mntdir.as_str(), "boot");
        let root_boot = join(rootfs.as_str(), "boot");
        let efi = join(root_boot.as_str(), "efi");
        MountLayout { mntdir, devdir, rootfs, bootfs, root_boot, efi }
    }

    /// The path of `device` inside the fresh view of the device nodes.
    pub fn reroot(&self, device: &str) -> (r: Option<String>)
        ensures
            r.deep_view() == rerooted_device(device@, self.devdir@),
    {
        match strip_prefix(device, "/dev/") {
            Some(rel) => Some(join(self.devdir.as_str(), rel.as_str())),
            None => None,
        }
    }
}

/// What provisioning does, in order, and what it ends with. The steps are
/// carried out one after the other; the first that fails ends the
/// installation. Once all have succeeded the outcome holds: the prepared
/// target, or the reason why provisioning stops at this point.
#[derive(Debug)]
pub struct ProvisionPlan {
    pub steps: Vec<Step>,
    pub outcome: Result<RootSetup, InstallError>,
}

/// The mathematical value of a [`ProvisionPlan`].
pub struct ProvisionPlanView {
    pub steps: Seq<StepView>,
    pub outcome: Result<RootSetupView, InstallErrorView>,
}

impl View for ProvisionPlan {
    type V = ProvisionPlanView;

    open spec fn view(&self) -> ProvisionPlanView {
        ProvisionPlanView {
            steps: self.steps.deep_view(),
            outcome: match self.outcome {
                Ok(root) => Ok(root@),
                Err(e) => Err(e@),
            },
        }
    }
}

/// The first `n` children, each to be wiped.
pub open spec fn wipe_children(children: Seq<Seq<char>>, n: int) -> Seq<StepView> {
    Seq::new(n as nat, |i: int| StepView::Wipe { device: children[i] })
}

/// With `wipe` set: every child is wiped, then the device itself. Without
/// it nothing is.
pub open spec fn wipe_steps(opts: BlockDeviceOptsView, children: Seq<Seq<char>>) -> Seq<StepView> {
    if opts.wipe {
        wipe_children(children, children.len() as int).push(
            StepView::Wipe { device: opts.device },
        )
    } else {
        Seq::empty()
    }
}

/// The command that mounts a fresh view of the device nodes at `devdir`.
pub open spec fn devtmpfs_command(devdir: Seq<char>) -> CommandView {
    CommandView {
        description: "Mounting devtmpfs"@,
        program: "mount"@,
        args: seq!["devtmpfs"@, "-t"@, "devtmpfs"@, devdir],
        announce: true,
        output: Output::Inherit,
        place: Place::Here,
    }
}

/// The scratch directory is emptied and the device nodes are mounted
/// under it.
pub open spec fn scratch_steps(layout: MountLayoutView) -> Seq<StepView> {
    seq![
        StepView::RemoveDirAll { path: layout.mntdir },
        StepView::CreateDirAll { path: layout.devdir },
        StepView::Run { command: devtmpfs_command(layout.devdir) },
    ]
}

/// The mount points for root and boot are created.
pub open spec fn mountpoint_steps(layout: MountLayoutView) -> Seq<StepView> {
    seq![
        StepView::CreateDirAll { path: layout.rootfs },
        StepView::CreateDirAll { path: layout.bootfs },
    ]
}

/// The partition table is written and the kernel made to see it.
pub open spec fn partition_steps(device: Seq<char>, table: Seq<PartitionView>) -> Seq<StepView> {
    seq![
        StepView::Run { command: sgdisk_command(device, table) },
        StepView::RereadPartitionTable { device },
        StepView::Settle,
    ]
}

/// The device node of partition `n` of `device`.
pub open spec fn partition_device(device: Seq<char>, n: u32) -> Seq<char> {
    device + decimal(n as nat)
}

/// Boot is formatted as ext4, then root as the filesystem asked for,
/// labelled `boot` and `root`.
pub open spec fn format_steps(
    device: Seq<char>,
    filesystem: Filesystem,
    boot_uuid: Seq<char>,
    root_uuid: Seq<char>,
) -> Seq<StepView> {
    seq![
        StepView::Run {
            command: mkfs_command(
                partition_device(device, BOOTPN),
                Filesystem::Ext4,
                Some("boot"@),
                Seq::empty(),
                boot_uuid,
            ),
        },
        StepView::Run {
            command: mkfs_command(
                partition_device(device, ROOTPN),
                filesystem,
                Some("root"@),
                Seq::empty(),
                root_uuid,
            ),
        },
    ]
}

/// Root is mounted and labelled; its `boot` directory is created and
/// labelled, boot is mounted on it, and the mounted boot is labelled again.
pub open spec fn mount_steps(device: Seq<char>, layout: MountLayoutView) -> Seq<StepView> {
    seq![
        StepView::Mount { device: partition_device(device, ROOTPN), target: layout.rootfs },
        StepView::Label { path: layout.rootfs, as_path: "/"@, recurse: false },
        StepView::OpenRoot { path: layout.rootfs },
        StepView::CreateDir { path: layout.root_boot },
        StepView::Label { path: layout.root_boot, as_path: "/boot"@, recurse: false },
        StepView::Mount { device: partition_device(device, BOOTPN), target: layout.root_boot },
        StepView::Label { path: layout.root_boot, as_path: "/boot"@, recurse: false },
    ]
}

/// The command that formats the EFI system partition.
pub open spec fn esp_command(espdev: Seq<char>) -> CommandView {
    CommandView {
        description: "Creating ESP filesystem"@,
        program: "mkfs.fat"@,
        args: seq![espdev, "-n"@, "EFI-SYSTEM"@],
        announce: true,
        output: Output::OnFailure,
        place: Place::Here,
    }
}

/// The EFI system partition is formatted and mounted under boot.
pub open spec fn esp_steps(device: Seq<char>, layout: MountLayoutView) -> Seq<StepView> {
    seq![
        StepView::Run { command: esp_command(partition_device(device, EFIPN)) },
        StepView::CreateDir { path: layout.efi },
        StepView::Mount { device: partition_device(device, EFIPN), target: layout.efi },
    ]
}

/// The kernel arguments of a provisioned target: the root by UUID, mounted
/// read-write, and boot by UUID.
pub open spec fn provisioned_kargs(root_uuid: Seq<char>, boot_uuid: Seq<char>) -> Seq<Seq<char>> {
    seq!["root=UUID="@ + root_uuid, "rw"@, "boot="@ + uuid_source(boot_uuid)]
}

/// How a provisioned target mounts `/boot`: by the UUID of the boot
/// filesystem.
pub open spec fn provisioned_boot(boot_uuid: Seq<char>) -> MountSpecView {
    MountSpecView {
        source: uuid_source(boot_uuid),
        target: "/boot"@,
        fstype: auto_fstype(),
        options: None,
    }
}

/// The size asked for the root partition, in mebibytes.
pub open spec fn requested_root_size(root_size: Option<Seq<char>>) -> Result<
    Option<u64>,
    InstallErrorView,
> {
    match root_size {
        None => Ok(None),
        Some(text) => match size_mib(text) {
            Some(mib) => if mib <= u64::MAX {
                Ok(Some(mib as u64))
            } else {
                Err(InstallErrorView::InvalidSize { text })
            },
            None => Err(InstallErrorView::InvalidSize { text }),
        },
    }
}

/// A plan that stops with an error once `steps` are done.
pub open spec fn stopped(steps: Seq<StepView>, e: InstallErrorView) -> ProvisionPlanView {
    ProvisionPlanView { steps, outcome: Err(e) }
}

/// The provisioning of a block device.
///
/// A device that holds partitions is left untouched unless `wipe` is set.
/// Otherwise the steps come in this order, and each check stops the plan
/// after the steps before it: wiping; the scratch directories; the device
/// has to lie under `/dev/` (`device` is its path under the scratch view,
/// if it does); the root size has to be valid; the mount points; the
/// architecture has to be a known one; partitioning; the block setup has
/// to be direct; formatting; mounting; the EFI system partition.
pub open spec fn provision_plan(
    opts: BlockDeviceOptsView,
    children: Seq<Seq<char>>,
    arch: Seq<char>,
    layout: MountLayoutView,
    device: Option<Seq<char>>,
    boot_uuid: Seq<char>,
    root_uuid: Seq<char>,
) -> ProvisionPlanView {
    if !opts.wipe && children.len() > 0 {
        stopped(Seq::empty(), InstallErrorView::ExistingPartitions { device: opts.device })
    } else {
        let prepared = wipe_steps(opts, children) + scratch_steps(layout);
        match (device, requested_root_size(opts.root_size)) {
            (None, _) => stopped(
                prepared,
                InstallErrorView::DeviceNotUnderDev { device: opts.device },
            ),
            (Some(_), Err(e)) => stopped(prepared, e),
            (Some(dev), Ok(root_size)) => {
                let pointed = prepared + mountpoint_steps(layout);
                match arch_named(arch) {
                    None => stopped(pointed, InstallErrorView::UnsupportedArchitecture { arch }),
                    Some(a) => {
                        let partitioned = pointed + partition_steps(
                            dev,
                            partition_table(a, root_size),
                        );
                        if opts.block_setup == BlockSetup::Tpm2Luks {
                            stopped(partitioned, InstallErrorView::Tpm2LuksNotImplemented)
                        } else {
                            ProvisionPlanView {
                                steps: partitioned + format_steps(
                                    dev,
                                    opts.filesystem,
                                    boot_uuid,
                                    root_uuid,
                                ) + mount_steps(dev, layout) + esp_steps(dev, layout),
                                outcome: checked_root_setup(
                                    dev,
                                    layout.rootfs,
                                    provisioned_boot(boot_uuid),
                                    provisioned_kargs(root_uuid, boot_uuid),
                                ),
                            }
                        }
                    },
                }
            },
        }
    }
}

fn partition_device_path(device: &str, n: u32) -> (path: String)
    ensures
        path@ == partition_device(device@, n),
{
    let mut path = String::from_str(device);
    let number = u64_to_decimal(n as u64);
    path.append(number.as_str());
    path
}

fn push_wipes(steps: &mut Vec<Step>, opts: &InstallBlockDeviceOpts, children: &Vec<String>)
    ensures
        final(steps).deep_view() == old(steps).deep_view() + wipe_steps(
            opts@,
            children.deep_view(),
        ),
{
    let ghost before = steps.deep_view();
    let ghost names = children.deep_view();
    if !opts.wipe {
        assert(before + Seq::<StepView>::empty() =~= before);
        return ;
    }
    let mut i: usize = 0;
    assert(before + wipe_children(names, 0) =~= before);
    while i < children.len()
        invariant
            i <= children.len(),
            names == children.deep_view(),
            steps.deep_view() == before + wipe_children(names, i as int),
        decreases children.len() - i,
    {
        push_step(steps, Step::Wipe { device: children[i].clone() });
        assert(names[i as int] == children@[i as int]@);
        assert((before + wipe_children(names, i as int)).push(
            StepView::Wipe { device: names[i as int] },
        ) =~= before + wipe_children(names, i + 1));
        i += 1;
    }
    push_step(steps, Step::Wipe { device: opts.device.clone() });
    assert(steps.deep_view() =~= before + wipe_steps(opts@, names));
}

fn push_scratch(steps: &mut Vec<Step>, layout: &MountLayout)
    ensures
        final(steps).deep_view() == old(steps).deep_view() + scratch_steps(layout@),
{
    let ghost before = steps.deep_view();
    push_step(steps, Step::RemoveDirAll { path: layout.mntdir.clone() });
    push_step(steps, Step::CreateDirAll { path: layout.devdir.clone() });
    let mut mount = CommandSpec::new("Mounting devtmpfs", "mount");
    mount.arg("devtmpfs");
    mount.arg("-t");
    mount.arg("devtmpfs");
    mount.arg(layout.devdir.as_str());
    assert(mount@.args =~= devtmpfs_command(layout@.devdir).args);
    push_step(steps, Step::Run { command: mount });
    assert(steps.deep_view() =~= before + scratch_steps(layout@));
}

fn push_mountpoints(steps: &mut Vec<Step>, layout: &MountLayout)
    ensures
        final(steps).deep_view() == old(steps).deep_view() + mountpoint_steps(layout@),
{
    let ghost before = steps.deep_view();
    push_step(steps, Step::CreateDirAll { path: layout.rootfs.clone() });
    push_step(steps, Step::CreateDirAll { path: layout.bootfs.clone() });
    assert(steps.deep_view() =~= before + mountpoint_steps(layout@));
}

fn push_partitioning(steps: &mut Vec<Step>, device: &str, table: &Vec<Partition>)
    ensures
        final(steps).deep_view() == old(steps).deep_view() + partition_steps(
            device@,
            table.deep_view(),
        ),
{
    let ghost before = steps.deep_view();
    push_step(steps, Step::Run { command: sgdisk(device, table) });
    push_step(steps, Step::RereadPartitionTable { device: device.to_owned() });
    push_step(steps, Step::Settle);
    assert(steps.deep_view() =~= before + partition_steps(device@, table.deep_view()));
}

fn push_formatting(
    steps: &mut Vec<Step>,
    device: &str,
    filesystem: Filesystem,
    boot_uuid: &str,
    root_uuid: &str,
)
    ensures
        final(steps).deep_view() == old(steps).deep_view() + format_steps(
            device@,
            filesystem,
            boot_uuid@,
            root_uuid@,
        ),
{
    let ghost before = steps.deep_view();
    let none: Vec<String> = Vec::new();
    assert(none.deep_view() =~= Seq::<Seq<char>>::empty());
    let bootdev = partition_device_path(device, BOOTPN);
    let boot = mkfs_with_uuid(bootdev.as_str(), Filesystem::Ext4, Some("boot"), &none, boot_uuid);
    push_step(steps, Step::Run { command: boot });
    let rootdev = partition_device_path(device, ROOTPN);
    let root = mkfs_with_uuid(rootdev.as_str(), filesystem, Some("root"), &none, root_uuid);
    push_step(steps, Step::Run { command: root });
    assert(steps.deep_view() =~= before + format_steps(
        device@,
        filesystem,
        boot_uuid@,
        root_uuid@,
    ));
}

fn push_mounts(steps: &mut Vec<Step>, device: &str, layout: &MountLayout)
    ensures
        final(steps).deep_view() == old(steps).deep_view() + mount_steps(device@, layout@),
{
    let ghost before = steps.deep_view();
    push_step(
        steps,
        Step::Mount {
            device: partition_device_path(device, ROOTPN),
            target: layout.rootfs.clone(),
        },
    );
    push_step(
        steps,
        Step::Label { path: layout.rootfs.clone(), as_path: String::from_str("/"), recurse: false },
    );
    push_step(steps, Step::OpenRoot { path: layout.rootfs.clone() });
    push_step(steps, Step::CreateDir { path: layout.root_boot.clone() });
    push_step(
        steps,
        Step::Label {
            path: layout.root_boot.clone(),
            as_path: String::from_str("/boot"),
            recurse: false,
        },
    );
    push_step(
        steps,
        Step::Mount {
            device: partition_device_path(device, BOOTPN),
            target: layout.root_boot.clone(),
        },
    );
    push_step(
        steps,
        Step::Label {
            path: layout.root_boot.clone(),
            as_path: String::from_str("/boot"),
            recurse: false,
        },
    );
    assert(steps.deep_view() =~= before + mount_steps(device@, layout@));
}

fn push_esp(steps: &mut Vec<Step>, device: &str, layout: &MountLayout)
    ensures
        final(steps).deep_view() == old(steps).deep_view() + esp_steps(device@, layout@),
{
    let ghost before = steps.deep_view();
    let espdev = partition_device_path(device, EFIPN);
    let mut format = CommandSpec::new("Creating ESP filesystem", "mkfs.fat");
    format.arg(espdev.as_str());
    format.arg("-n");
    format.arg("EFI-SYSTEM");
    format.output = Output::OnFailure;
    assert(format@.args =~= esp_command(espdev@).args);
    push_step(steps, Step::Run { command: format });
    push_step(steps, Step::CreateDir { path: layout.efi.clone() });
    push_step(steps, Step::Mount { device: espdev, target: layout.efi.clone() });
    assert(steps.deep_view() =~= before + esp_steps(device@, layout@));
}

fn requested_size(root_size: &Option<String>) -> (r: Result<Option<u64>, InstallError>)
    ensures
        match r {
            Ok(size) => requested_root_size(root_size.deep_view()) == Ok::<
                Option<u64>,
                InstallErrorView,
            >(size),
            Err(e) => requested_root_size(root_size.deep_view()) == Err::<
                Option<u64>,
                InstallErrorView,
            >(e@),
        },
{
    match root_size {
        None => Ok(None),
        Some(text) => match parse_size_mib(text.as_str()) {
            Ok(mib) => Ok(Some(mib)),
            Err(e) => Err(e),
        },
    }
}

fn provisioned_root(device: String, layout: &MountLayout, boot_uuid: &str, root_uuid: &str) -> (r:
    Result<RootSetup, InstallError>)
    ensures
        match r {
            Ok(root) => checked_root_setup(
                device@,
                layout@.rootfs,
                provisioned_boot(boot_uuid@),
                provisioned_kargs(root_uuid@, boot_uuid@),
            ) == Ok::<RootSetupView, InstallErrorView>(root@),
            Err(e) => checked_root_setup(
                device@,
                layout@.rootfs,
                provisioned_boot(boot_uuid@),
                provisioned_kargs(root_uuid@, boot_uuid@),
            ) == Err::<RootSetupView, InstallErrorView>(e@),
        },
{
    let mut rootarg = String::from_str("root=UUID=");
    rootarg.append(root_uuid);
    let boot = MountSpec::new_uuid_src(boot_uuid, "/boot");
    let mut bootarg = String::from_str("boot=");
    bootarg.append(boot.source.as_str());
    let mut kargs: Vec<String> = Vec::new();
    kargs.push(rootarg);
    kargs.push(String::from_str("rw"));
    kargs.push(bootarg);
    assert(kargs.deep_view() =~= provisioned_kargs(root_uuid@, boot_uuid@));
    RootSetup::new(device, layout.rootfs.clone(), boot, kargs)
}

/// Plans the provisioning of a block device from what is known of it:
/// the paths of its child partitions, the name of the architecture, the
/// scratch layout, the device's path inside the scratch view of the device
/// nodes (if it lies under `/dev/`), and the UUIDs that the new boot and
/// root filesystems are to get.
pub fn plan_rootfs(
    opts: &InstallBlockDeviceOpts,
    children: &Vec<String>,
    arch: &str,
    layout: &MountLayout,
    device: Option<String>,
    boot_uuid: &str,
    root_uuid: &str,
) -> (plan: ProvisionPlan)
    ensures
        plan@ == provision_plan(
            opts@,
            children.deep_view(),
            arch@,
            layout@,
            device.deep_view(),
            boot_uuid@,
            root_uuid@,
        ),
{
    let mut steps: Vec<Step> = Vec::new();
    assert(steps.deep_view() =~= Seq::<StepView>::empty());
    assert(children.deep_view().len() == children.len());
    if !opts.wipe && children.len() > 0 {
        return ProvisionPlan {
            steps,
            outcome: Err(InstallError::ExistingPartitions { device: opts.device.clone() }),
        };
    }
    push_wipes(&mut steps, opts, children);
    push_scratch(&mut steps, layout);
    let ghost prepared = wipe_steps(opts@, children.deep_view()) + scratch_steps(layout@);
    assert(steps.deep_view() =~= prepared);
    let dev = match device {
        None => {
            return ProvisionPlan {
                steps,
                outcome: Err(InstallError::DeviceNotUnderDev { device: opts.device.clone() }),
            };
        },
        Some(dev) => dev,
    };
    let root_size = match requested_size(&opts.root_size) {
        Err(e) => {
            return ProvisionPlan { steps, outcome: Err(e) };
        },
        Ok(size) => size,
    };
    push_mountpoints(&mut steps, layout);
    let a = match Arch::from_name(arch) {
        None => {
            return ProvisionPlan {
                steps,
                outcome: Err(InstallError::UnsupportedArchitecture { arch: arch.to_owned() }),
            };
        },
        Some(a) => a,
    };
    let table = partition_table_for(a, root_size);
    push_partitioning(&mut steps, dev.as_str(), &table);
    match opts.block_setup {
        BlockSetup::Direct => {},
        BlockSetup::Tpm2Luks => {
            return ProvisionPlan { steps, outcome: Err(InstallError::Tpm2LuksNotImplemented) };
        },
    }
    push_formatting(&mut steps, dev.as_str(), opts.filesystem, boot_uuid, root_uuid);
    push_mounts(&mut steps, dev.as_str(), layout);
    push_esp(&mut steps, dev.as_str(), layout);
    let outcome = provisioned_root(dev, layout, boot_uuid, root_uuid);
    ProvisionPlan { steps, outcome }
}

/// Plans the provisioning of the block device that `opts` names, given the
/// paths of the child partitions it was found to have and the name of the
/// architecture. The boot and root filesystems get fresh random UUIDs.
pub fn install_create_rootfs(opts: &InstallBlockDeviceOpts, children: &Vec<String>, arch: &str) -> (plan:
    ProvisionPlan)
    ensures
        exists|boot_uuid: Seq<char>, root_uuid: Seq<char>|
            is_random_uuid_text(boot_uuid) && is_random_uuid_text(root_uuid) && plan@
                == provision_plan(
                opts@,
                children.deep_view(),
                arch@,
                standard_layout(),
                rerooted_device(opts@.device, standard_layout().devdir),
                boot_uuid,
                root_uuid,
            ),
{
    let layout = MountLayout::standard();
    let device = layout.reroot(opts.device.as_str());
    let boot_uuid = new_uuid_text();
    let root_uuid = new_uuid_text();
    plan_rootfs(
        opts,
        children,
        arch,
        &layout,
        device,
        boot_uuid.as_str(),
        root_uuid.as_str(),
    )
}

/// A device that holds partitions is refused as unsafe unless wiping was
/// asked for, and the plan then holds no step: nothing is wiped,
/// partitioned or formatted.
pub proof fn lemma_unwiped_partitions_refused(
    opts: BlockDeviceOptsView,
    children: Seq<Seq<char>>,
    arch: Seq<char>,
    layout: MountLayoutView,
    device: Option<Seq<char>>,
    boot_uuid: Seq<char>,
    root_uuid: Seq<char>,
)
    requires
        !opts.wipe,
        children.len() > 0,
    ensures
        ({
            let plan = provision_plan(opts, children, arch, layout, device, boot_uuid, root_uuid);
            &&& plan.steps.len() == 0
            &&& plan.outcome == Err::<RootSetupView, InstallErrorView>(
                InstallErrorView::ExistingPartitions { device: opts.device },
            )
            &&& plan.outcome->Err_0.kind() == ErrorKind::Safety
        }),
{
}

/// With wiping asked for, the plan begins by wiping every child partition
/// in order and then the device itself; every other step, and so every
/// command that partitions or formats, comes after these.
pub proof fn lemma_wipe_precedes_partitioning(
    opts: BlockDeviceOptsView,
    children: Seq<Seq<char>>,
    arch: Seq<char>,
    layout: MountLayoutView,
    device: Option<Seq<char>>,
    boot_uuid: Seq<char>,
    root_uuid: Seq<char>,
)
    requires
        opts.wipe,
    ensures
        ({
            let plan = provision_plan(opts, children, arch, layout, device, boot_uuid, root_uuid);
            let n = children.len() as int;
            &&& plan.steps.len() > n
            &&& forall|i: int| 0 <= i < n ==> plan.steps[i] == StepView::Wipe { device: children[i] }
            &&& plan.steps[n] == StepView::Wipe { device: opts.device }
            &&& forall|k: int|
                0 <= k < plan.steps.len() && !(#[trigger] plan.steps[k] is Wipe) ==> k > n
        }),
{
    let plan = provision_plan(opts, children, arch, layout, device, boot_uuid, root_uuid);
    let n = children.len() as int;
    let wipes = wipe_steps(opts, children);
    let prepared = wipes + scratch_steps(layout);
    assert(wipes.len() == n + 1);
    assert(prepared.len() == n + 4);
    assert(plan.steps.len() >= prepared.len() && plan.steps.take(n + 4) =~= prepared);
    assert forall|i: int| 0 <= i <= n implies plan.steps[i] == wipes[i] by {
        assert(plan.steps[i] == plan.steps.take(n + 4)[i]);
    }
    assert forall|i: int| 0 <= i < n implies plan.steps[i] == (StepView::Wipe {
        device: children[i],
    }) by {
        assert(plan.steps[i] == wipes[i]);
    }
    assert(plan.steps[n] == wipes[n]);
}

/// A plan that succeeds leaves exactly three kernel arguments, in this
/// order: the root by the UUID of the root filesystem, `rw`, and boot by
/// the UUID of the boot filesystem; and `/boot` is mounted by that UUID.
pub proof fn lemma_provisioned_kargs(
    opts: BlockDeviceOptsView,
    children: Seq<Seq<char>>,
    arch: Seq<char>,
    layout: MountLayoutView,
    device: Option<Seq<char>>,
    boot_uuid: Seq<char>,
    root_uuid: Seq<char>,
)
    ensures
        provision_plan(opts, children, arch, layout, device, boot_uuid, root_uuid).outcome matches Ok(
            root,
        ) ==> {
            &&& root.kargs == seq![
                "root=UUID="@ + root_uuid,
                "rw"@,
                "boot="@ + ("UUID="@ + boot_uuid),
            ]
            &&& root.well_formed()
            &&& root.boot.target == "/boot"@
            &&& source_uuid(root.boot.source) == Some(boot_uuid)
        },
{
    lemma_uuid_source_roundtrip(boot_uuid);
}

} // verus!
