//! What follows the deployment: the record of the installation, the boot
//! loader, the first-boot configuration, and the finalization of the
//! mounted filesystems.

use vstd::prelude::*;
use vstd::string::StringExecFns;
use crate::command::{CommandSpec, CommandView, Output, Place, Step, StepView};
use crate::deploy::{InstallAleph, InstallAlephView};
use crate::error::{ErrorKind, InstallError, InstallErrorView};
use crate::mountspec::source_uuid;
use crate::paths::{file_name, join, joined_path, path_file_name};
use crate::preflight::{State, StateView};
use crate::setup::{RootSetup, RootSetupView};

verus! {

broadcast use vstd::string::group_string_axioms;

/// The kernel argument by which the root is mounted read-write.
pub const RW_KARG: &'static str = "rw";

/// The file in the target root that records what was installed.
pub const BOOTC_ALEPH_PATH: &'static str = ".bootc-aleph.json";

/// The kernel argument that tells Ignition it runs on bare metal.
pub const PLATFORM_METAL_KARG: &'static str = "ignition.platform.id=metal";

/// The variable that the boot loader replaces by the first-boot arguments.
pub const IGNITION_VARIABLE: &'static str = "$ignition_firstboot";

/// The kernel arguments that the configuration adds: `selinux=0` where
/// SELinux is forced off, and the two arguments of Ignition where a config
/// for it is given.
pub open spec fn config_kargs(state: StateView) -> Seq<Seq<char>> {
    (if state.override_disable_selinux {
        seq!["selinux=0"@]
    } else {
        Seq::empty()
    }) + (if state.config_opts.ignition_file is Some {
        seq!["ignition.platform.id=metal"@, "$ignition_firstboot"@]
    } else {
        Seq::empty()
    })
}

/// Adds to the target the kernel arguments that follow from the
/// configuration.
pub fn add_config_kargs(state: &State, rootfs: &mut RootSetup)
    ensures
        final(rootfs)@ == (RootSetupView {
            kargs: old(rootfs)@.kargs + config_kargs(state@),
            ..old(rootfs)@
        }),
{
    proof {
        reveal_strlit("ignition.platform.id=metal");
        reveal_strlit("$ignition_firstboot");
    }
    let ghost before = rootfs@.kargs;
    if state.override_disable_selinux {
        rootfs.push_karg("selinux=0");
    }
    if state.config_opts.ignition_file.is_some() {
        rootfs.push_karg(PLATFORM_METAL_KARG);
        rootfs.push_karg(IGNITION_VARIABLE);
    }
    assert(rootfs@.kargs =~= before + config_kargs(state@));
}

/// The steps that prepare the filesystem mounted at `fs`, whose last path
/// component is `fsname`, for its first boot: it is trimmed, so that the
/// device knows of unused space; mounted read-only again, which writes out
/// what is pending and shows write errors; then frozen and thawed, which
/// flushes the journal.
pub open spec fn finalize_steps(fs: Seq<char>, fsname: Seq<char>) -> Seq<StepView> {
    seq![
        StepView::Run {
            command: CommandView {
                description: "Trimming "@ + fsname,
                program: "fstrim"@,
                args: seq!["-v"@, fs],
                announce: true,
                output: Output::Inherit,
                place: Place::Here,
            },
        },
        StepView::Run {
            command: CommandView {
                description: "Finalizing filesystem "@ + fsname,
                program: "mount"@,
                args: seq!["-o"@, "remount,ro"@, fs],
                announce: true,
                output: Output::Inherit,
                place: Place::Here,
            },
        },
        StepView::Run { command: freeze_command("-f"@, fs) },
        StepView::Run { command: freeze_command("-u"@, fs) },
    ]
}

/// The command that freezes (`-f`) or thaws (`-u`) a filesystem.
pub open spec fn freeze_command(flag: Seq<char>, fs: Seq<char>) -> CommandView {
    CommandView {
        description: "Flushing filesystem journal"@,
        program: "xfs_freeze"@,
        args: seq![flag, fs],
        announce: false,
        output: Output::Inherit,
        place: Place::Here,
    }
}

fn freeze(flag: &str, fs: &str) -> (c: CommandSpec)
    ensures
        c@ == freeze_command(flag@, fs@),
{
    let mut c = CommandSpec::new("Flushing filesystem journal", "xfs_freeze");
    c.arg(flag);
    c.arg(fs);
    c.announce = false;
    assert(c@.args =~= seq![flag@, fs@]);
    c
}

/// The finalization of one mounted filesystem.
#[derive(Debug)]
pub struct Finalization {
    /// Where the filesystem is mounted.
    pub filesystem: String,
    /// What is done to it, in order.
    pub steps: Vec<Step>,
}

/// The mathematical value of a [`Finalization`].
pub struct FinalizationView {
    pub filesystem: Seq<char>,
    pub steps: Seq<StepView>,
}

impl View for Finalization {
    type V = FinalizationView;

    open spec fn view(&self) -> FinalizationView {
        FinalizationView { filesystem: self.filesystem@, steps: self.steps.deep_view() }
    }
}

impl DeepView for Finalization {
    type V = FinalizationView;

    open spec fn deep_view(&self) -> FinalizationView {
        self@
    }
}

/// The finalization of the filesystem mounted at `fs`, named `fsname` in
/// what is printed.
pub open spec fn finalization(fs: Seq<char>, fsname: Seq<char>) -> FinalizationView {
    FinalizationView { filesystem: fs, steps: finalize_steps(fs, fsname) }
}

impl Finalization {
    /// The error that the failure of one of its commands amounts to: a
    /// failure of finalization, which names the filesystem, the purpose of
    /// the command and its exit status.
    pub fn failure(&self, command: &CommandSpec, status: i32) -> (e: InstallError)
        ensures
            e@ == (InstallErrorView::FinalizationFailed {
                filesystem: self@.filesystem,
                purpose: command@.description,
                status,
            }),
            e@.kind() == ErrorKind::Finalization,
    {
        InstallError::FinalizationFailed {
            filesystem: self.filesystem.clone(),
            purpose: command.description.clone(),
            status,
        }
    }
}

/// The finalization of the filesystem mounted at `fs`, named `fsname` in
/// what is printed.
pub fn finalize_named_filesystem(fs: &str, fsname: &str) -> (f: Finalization)
    ensures
        f@ == finalization(fs@, fsname@),
{
    let mut trimming = String::from_str("Trimming ");
    trimming.append(fsname);
    let mut trim = CommandSpec::new(trimming.as_str(), "fstrim");
    trim.arg("-v");
    trim.arg(fs);
    assert(trim@.args =~= seq!["-v"@, fs@]);
    let mut finalizing = String::from_str("Finalizing filesystem ");
    finalizing.append(fsname);
    let mut remount = CommandSpec::new(finalizing.as_str(), "mount");
    remount.arg("-o");
    remount.arg("remount,ro");
    remount.arg(fs);
    assert(remount@.args =~= seq!["-o"@, "remount,ro"@, fs@]);
    let mut steps: Vec<Step> = Vec::new();
    steps.push(Step::Run { command: trim });
    steps.push(Step::Run { command: remount });
    steps.push(Step::Run { command: freeze("-f", fs) });
    steps.push(Step::Run { command: freeze("-u", fs) });
    assert(steps.deep_view() =~= finalize_steps(fs@, fsname@));
    Finalization { filesystem: fs.to_owned(), steps }
}

/// The finalization of the filesystem mounted at `fs`; none where the
/// path has no final component to name the filesystem by.
pub fn finalize_filesystem(fs: &str) -> (f: Option<Finalization>)
    ensures
        f.deep_view() == match path_file_name(fs@) {
            Some(fsname) => Some(finalization(fs@, fsname)),
            None => None,
        },
{
    match file_name(fs) {
        Some(fsname) => Some(finalize_named_filesystem(fs, fsname.as_str())),
        None => None,
    }
}

/// What remains to be done after the deployment, in order, and whether the
/// installation then succeeded. The steps before the first that fails are
/// carried out; where the outcome is an error, the installation fails with
/// it once the steps are done.
#[derive(Debug)]
pub struct CompletionPlan {
    pub steps: Vec<Step>,
    /// The finalization of boot and then of the root. A failure among its
    /// commands is a failure of finalization.
    pub finalize: Vec<Finalization>,
    pub outcome: Result<(), InstallError>,
}

/// The mathematical value of a [`CompletionPlan`].
pub struct CompletionPlanView {
    pub steps: Seq<StepView>,
    pub finalize: Seq<FinalizationView>,
    pub outcome: Result<(), InstallErrorView>,
}

impl View for CompletionPlan {
    type V = CompletionPlanView;

    open spec fn view(&self) -> CompletionPlanView {
        CompletionPlanView {
            steps: self.steps.deep_view(),
            finalize: self.finalize.deep_view(),
            outcome: match self.outcome {
                Ok(()) => Ok(()),
                Err(e) => Err(e@),
            },
        }
    }
}

/// The step that writes the record of the installation.
pub open spec fn aleph_step(aleph: InstallAlephView) -> StepView {
    StepView::WriteAleph { path: ".bootc-aleph.json"@, image: aleph.image, kernel: aleph.kernel }
}

/// The steps that install the Ignition config, if one is given, on the
/// boot filesystem mounted at `bootfs`.
pub open spec fn ignition_steps(state: StateView, bootfs: Seq<char>) -> Seq<StepView> {
    match state.config_opts.ignition_file {
        Some(file) => seq![
            StepView::WriteIgnition { bootfs, file, hash: state.config_opts.ignition_hash },
            StepView::EnableFirstboot { bootfs },
        ],
        None => Seq::empty(),
    }
}

/// The command that makes the target root immutable, so that nothing
/// gathers outside the deployments.
pub open spec fn immutable_command() -> CommandView {
    CommandView {
        description: "Setting root immutable bit"@,
        program: "chattr"@,
        args: seq!["+i"@, "."@],
        announce: true,
        output: Output::Inherit,
        place: Place::TargetRoot,
    }
}

/// What remains after the deployment, given the path where boot is
/// mounted and the finalization of boot and of the root.
///
/// The record is written first. Then `/boot` has to be known by UUID; if it
/// is not, the installation fails here. The boot loader is installed, the
/// Ignition config if there is one, and the root is made immutable. Last,
/// boot and then the root are finalized.
pub open spec fn completion_plan(
    state: StateView,
    root: RootSetupView,
    aleph: InstallAlephView,
    bootfs: Seq<char>,
    finalize: Seq<FinalizationView>,
) -> CompletionPlanView {
    match source_uuid(root.boot.source) {
        None => CompletionPlanView {
            steps: seq![aleph_step(aleph)],
            finalize: Seq::empty(),
            outcome: Err(InstallErrorView::BootNotByUuid),
        },
        Some(boot_uuid) => CompletionPlanView {
            steps: seq![
                aleph_step(aleph),
                StepView::InstallBootloader { device: root.device, rootfs: root.rootfs, boot_uuid },
            ] + ignition_steps(state, bootfs) + seq![StepView::Run { command: immutable_command() }],
            finalize,
            outcome: Ok(()),
        },
    }
}

/// Plans what remains after the deployment, given the path where boot is
/// mounted and the finalization of boot and of the root.
pub fn complete_with(
    state: &State,
    rootfs: &RootSetup,
    aleph: &InstallAleph,
    bootfs: &str,
    finalize: Vec<Finalization>,
) -> (plan: CompletionPlan)
    ensures
        plan@ == completion_plan(state@, rootfs@, aleph@, bootfs@, finalize.deep_view()),
{
    let mut steps: Vec<Step> = Vec::new();
    steps.push(
        Step::WriteAleph {
            path: String::from_str(BOOTC_ALEPH_PATH),
            image: aleph.image.clone(),
            kernel: aleph.kernel.clone(),
        },
    );
    proof {
        reveal_strlit(".bootc-aleph.json");
    }
    let boot_uuid = match rootfs.get_boot_uuid() {
        Err(error) => {
            assert(steps.deep_view() =~= seq![aleph_step(aleph@)]);
            let none: Vec<Finalization> = Vec::new();
            assert(none.deep_view() =~= Seq::<FinalizationView>::empty());
            return CompletionPlan { steps, finalize: none, outcome: Err(error) };
        },
        Ok(uuid) => uuid,
    };
    steps.push(
        Step::InstallBootloader {
            device: rootfs.device.clone(),
            rootfs: rootfs.rootfs.clone(),
            boot_uuid: boot_uuid.to_owned(),
        },
    );
    match &state.config_opts.ignition_file {
        Some(file) => {
            let hash = match &state.config_opts.ignition_hash {
                Some(h) => Some(h.clone()),
                None => None,
            };
            steps.push(
                Step::WriteIgnition { bootfs: bootfs.to_owned(), file: file.clone(), hash },
            );
            steps.push(Step::EnableFirstboot { bootfs: bootfs.to_owned() });
        },
        None => {},
    }
    let mut immutable = CommandSpec::new("Setting root immutable bit", "chattr");
    immutable.arg("+i");
    immutable.arg(".");
    immutable.place = Place::TargetRoot;
    assert(immutable@.args =~= immutable_command().args);
    steps.push(Step::Run { command: immutable });
    assert(steps.deep_view() =~= completion_plan(
        state@,
        rootfs@,
        aleph@,
        bootfs@,
        finalize.deep_view(),
    ).steps);
    CompletionPlan { steps, finalize, outcome: Ok(()) }
}

/// The finalization of the filesystem at `bootfs` and then of the one at
/// `rootfs`, where each path has a final component.
pub open spec fn finalize_both(bootfs: Seq<char>, rootfs: Seq<char>) -> Option<
    Seq<FinalizationView>,
> {
    match (path_file_name(bootfs), path_file_name(rootfs)) {
        (Some(boot_name), Some(root_name)) => Some(
            seq![finalization(bootfs, boot_name), finalization(rootfs, root_name)],
        ),
        _ => None,
    }
}

/// Plans what remains after the deployment to `rootfs`: the record, the
/// boot loader, the Ignition config, the immutable root, and the
/// finalization of boot and root. Gives `None` where the root path or the
/// path of its `boot` has no final component to name the filesystem by.
pub fn install_to_filesystem_impl(state: &State, rootfs: &RootSetup, aleph: &InstallAleph) -> (plan:
    Option<CompletionPlan>)
    ensures
        ({
            let bootfs = joined_path(rootfs@.rootfs, "boot"@);
            match finalize_both(bootfs, rootfs@.rootfs) {
                Some(finalize) => plan matches Some(p) && p@ == completion_plan(
                    state@,
                    rootfs@,
                    aleph@,
                    bootfs,
                    finalize,
                ),
                None => plan is None,
            }
        }),
{
    let bootfs = join(rootfs.rootfs.as_str(), "boot");
    let boot = match finalize_filesystem(bootfs.as_str()) {
        Some(f) => f,
        None => {
            return None;
        },
    };
    let root = match finalize_filesystem(rootfs.rootfs.as_str()) {
        Some(f) => f,
        None => {
            return None;
        },
    };
    let ghost both = seq![boot@, root@];
    let mut finalize: Vec<Finalization> = Vec::new();
    finalize.push(boot);
    finalize.push(root);
    assert(finalize.deep_view() =~= both);
    Some(complete_with(state, rootfs, aleph, bootfs.as_str(), finalize))
}

/// The command that unmounts the target and all that is mounted below it.
pub open spec fn unmount_command(rootfs: Seq<char>) -> CommandView {
    CommandView {
        description: "Unmounting filesystems"@,
        program: "umount"@,
        args: seq!["-R"@, rootfs],
        announce: true,
        output: Output::Inherit,
        place: Place::Here,
    }
}

/// The last step of an installation to a block device, taken once every
/// handle into the target is closed: the target is unmounted.
pub fn unmount_filesystems(rootfs_path: &str) -> (c: CommandSpec)
    ensures
        c@ == unmount_command(rootfs_path@),
{
    let mut c = CommandSpec::new("Unmounting filesystems", "umount");
    c.arg("-R");
    c.arg(rootfs_path);
    assert(c@.args =~= seq!["-R"@, rootfs_path@]);
    c
}

/// What is printed when an installation has succeeded.
pub fn installation_complete() -> (notice: &'static str)
    ensures
        notice@ == "Installation complete!"@,
{
    "Installation complete!"
}

} // verus!
