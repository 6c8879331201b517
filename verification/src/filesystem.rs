//! Installing to a filesystem that the caller has already mounted: what to
//! find out about it, in which order, and what follows from the answers.

use vstd::prelude::*;
use vstd::string::StringExecFns;
use crate::error::{ErrorKind, InstallError, InstallErrorView};
use crate::mountspec::{auto_fstype, uuid_source, MountSpec, MountSpecView};
use crate::paths::{join, joined_path};
use crate::resolve::{backing_device, walk, Resolution, Walk};
use crate::rootdir::{first_offence, require_empty_rootdir};
use crate::setup::{checked_root_setup, RootSetup, RootSetupView};

verus! {

broadcast use vstd::string::group_string_axioms;

/// Options for installing to a filesystem.
#[derive(Debug)]
pub struct InstallTargetFilesystemOpts {
    /// The path at which the root filesystem is mounted.
    pub root_path: String,
    /// The source by which the installed system mounts its root; by
    /// default the UUID of the filesystem.
    pub root_mount_spec: Option<String>,
    /// Mount options for the root filesystem.
    pub root_options: Option<String>,
    /// The source by which the installed system mounts `/boot`; by default
    /// the UUID of the filesystem.
    pub boot_mount_spec: Option<String>,
    /// Whether what the root holds may be removed.
    pub wipe: bool,
}

/// The mathematical value of [`InstallTargetFilesystemOpts`].
pub struct FilesystemOptsView {
    pub root_path: Seq<char>,
    pub root_mount_spec: Option<Seq<char>>,
    pub root_options: Option<Seq<char>>,
    pub boot_mount_spec: Option<Seq<char>>,
    pub wipe: bool,
}

impl View for InstallTargetFilesystemOpts {
    type V = FilesystemOptsView;

    open spec fn view(&self) -> FilesystemOptsView {
        FilesystemOptsView {
            root_path: self.root_path@,
            root_mount_spec: self.root_mount_spec.deep_view(),
            root_options: self.root_options.deep_view(),
            boot_mount_spec: self.boot_mount_spec.deep_view(),
            wipe: self.wipe,
        }
    }
}

/// What inspecting a mounted filesystem tells: the device it is mounted
/// from and its UUID, if it has one.
#[derive(Debug)]
pub struct Inspection {
    pub source: String,
    pub uuid: Option<String>,
}

/// The mathematical value of an [`Inspection`].
pub struct InspectionView {
    pub source: Seq<char>,
    pub uuid: Option<Seq<char>>,
}

impl View for Inspection {
    type V = InspectionView;

    open spec fn view(&self) -> InspectionView {
        InspectionView { source: self.source@, uuid: self.uuid.deep_view() }
    }
}

/// The names found in the target root and in its `boot` directory.
#[derive(Debug)]
pub struct Listing {
    pub root: Vec<String>,
    /// Empty where the root has no `boot` directory.
    pub boot: Vec<String>,
}

/// The device numbers of the filesystems that hold the root and `boot`.
#[derive(Debug, Clone, Copy, PartialEq, Eq, Structural)]
pub struct DeviceIds {
    pub root: u64,
    /// `None` where the root has no `boot` at all.
    pub boot: Option<u64>,
}

/// What has been found out about the target so far. The installer fills
/// this in answer by answer, in the order in which it is asked.
#[derive(Debug)]
pub struct TargetFacts {
    /// Whether the root has been wiped.
    pub wiped: bool,
    pub listing: Option<Listing>,
    /// The inspection of the root filesystem.
    pub root: Option<Inspection>,
    pub devices: Option<DeviceIds>,
    /// The inspection of the filesystem at `boot`.
    pub boot: Option<Inspection>,
    /// The parents found so far, walking up from the root's source device:
    /// one entry for each device asked about.
    pub parents: Vec<Vec<String>>,
}

/// The mathematical value of [`TargetFacts`].
pub struct TargetFactsView {
    pub wiped: bool,
    pub listing: Option<(Seq<Seq<char>>, Seq<Seq<char>>)>,
    pub root: Option<InspectionView>,
    pub devices: Option<DeviceIds>,
    pub boot: Option<InspectionView>,
    pub parents: Seq<Seq<Seq<char>>>,
}

impl View for TargetFacts {
    type V = TargetFactsView;

    open spec fn view(&self) -> TargetFactsView {
        TargetFactsView {
            wiped: self.wiped,
            listing: match self.listing {
                Some(l) => Some((l.root.deep_view(), l.boot.deep_view())),
                None => None,
            },
            root: match self.root {
                Some(i) => Some(i@),
                None => None,
            },
            devices: self.devices,
            boot: match self.boot {
                Some(i) => Some(i@),
                None => None,
            },
            parents: self.parents.deep_view(),
        }
    }
}

/// What the installer has to do next.
#[derive(Debug)]
pub enum TargetStep {
    /// Remove every entry of the root, then note that it was wiped.
    WipeRoot,
    /// List the root and its `boot` directory.
    ListRoot,
    /// Inspect the filesystem mounted at the root.
    InspectRoot,
    /// Look up the device numbers of the root and of `boot`.
    CompareDevices,
    /// Inspect the filesystem mounted at `path`, the target's `boot`.
    InspectBoot { path: String },
    /// Look up the parents of `device` and add them to those found.
    FindParents { device: String },
    /// Everything is known: deploy to this target.
    Deploy { root: RootSetup },
    /// The installation cannot go on.
    Fail { error: InstallError },
}

/// The mathematical value of a [`TargetStep`].
pub enum TargetStepView {
    WipeRoot,
    ListRoot,
    InspectRoot,
    CompareDevices,
    InspectBoot { path: Seq<char> },
    FindParents { device: Seq<char> },
    Deploy { root: RootSetupView },
    Fail { error: InstallErrorView },
}

impl View for TargetStep {
    type V = TargetStepView;

    open spec fn view(&self) -> TargetStepView {
        match self {
            TargetStep::WipeRoot => TargetStepView::WipeRoot,
            TargetStep::ListRoot => TargetStepView::ListRoot,
            TargetStep::InspectRoot => TargetStepView::InspectRoot,
            TargetStep::CompareDevices => TargetStepView::CompareDevices,
            TargetStep::InspectBoot { path } => TargetStepView::InspectBoot { path: path@ },
            TargetStep::FindParents { device } => TargetStepView::FindParents { device: device@ },
            TargetStep::Deploy { root } => TargetStepView::Deploy { root: root@ },
            TargetStep::Fail { error } => TargetStepView::Fail { error: error@ },
        }
    }
}

/// The source by which the installed system mounts its root: the one
/// given, or else the filesystem's UUID.
pub open spec fn root_mount_source(given: Option<Seq<char>>, uuid: Option<Seq<char>>) -> Result<
    Seq<char>,
    InstallErrorView,
> {
    match given {
        Some(source) => Ok(source),
        None => match uuid {
            Some(u) => Ok(uuid_source(u)),
            None => Err(InstallErrorView::MissingRootUuid),
        },
    }
}

/// Root and boot have to be distinct mounted filesystems.
pub open spec fn separate_boot(ids: DeviceIds) -> Result<(), InstallErrorView> {
    match ids.boot {
        None => Err(InstallErrorView::MissingBootDirectory),
        Some(boot) => if boot == ids.root {
            Err(InstallErrorView::BootNotSeparate)
        } else {
            Ok(())
        },
    }
}

/// How the installed system mounts `/boot`: from the source given, or else
/// by the UUID of the boot filesystem.
pub open spec fn boot_mount(given: Option<Seq<char>>, boot_uuid: Seq<char>) -> MountSpecView {
    MountSpecView {
        source: match given {
            Some(source) => source,
            None => uuid_source(boot_uuid),
        },
        target: "/boot"@,
        fstype: auto_fstype(),
        options: None,
    }
}

/// The kernel arguments of a target on a given filesystem: its root, `rw`,
/// and its boot.
pub open spec fn target_kargs(root_source: Seq<char>, boot_source: Seq<char>) -> Seq<Seq<char>> {
    seq!["root="@ + root_source, "rw"@, "boot="@ + boot_source]
}

/// What stands against installing into a root with the given listing.
pub open spec fn listing_offence(listing: Option<(Seq<Seq<char>>, Seq<Seq<char>>)>) -> Option<
    InstallErrorView,
> {
    match listing {
        Some((root, boot)) => first_offence(root, boot, 0),
        None => None,
    }
}

/// What is to be done next, given the options, what is known so far, and
/// the path of the target's `boot`.
///
/// In order: the root is wiped if that was asked for, and otherwise has to
/// be empty; the root filesystem is inspected and has to have a UUID
/// unless a root source was given; `boot` has to exist and lie on another
/// filesystem than the root; the boot filesystem is inspected and has to
/// have a UUID; the root's source device is followed up to the device
/// without parent; then the target is ready for deployment.
pub open spec fn next_target_step(
    opts: FilesystemOptsView,
    facts: TargetFactsView,
    boot_path: Seq<char>,
) -> TargetStepView {
    if opts.wipe && !facts.wiped {
        TargetStepView::WipeRoot
    } else if !opts.wipe && facts.listing is None {
        TargetStepView::ListRoot
    } else if !opts.wipe && listing_offence(facts.listing) is Some {
        TargetStepView::Fail { error: listing_offence(facts.listing)->0 }
    } else {
        match facts.root {
            None => TargetStepView::InspectRoot,
            Some(root) => match root_mount_source(opts.root_mount_spec, root.uuid) {
                Err(error) => TargetStepView::Fail { error },
                Ok(root_source) => match facts.devices {
                    None => TargetStepView::CompareDevices,
                    Some(ids) => match separate_boot(ids) {
                        Err(error) => TargetStepView::Fail { error },
                        Ok(()) => match facts.boot {
                            None => TargetStepView::InspectBoot { path: boot_path },
                            Some(boot) => match boot.uuid {
                                None => TargetStepView::Fail {
                                    error: InstallErrorView::MissingBootUuid,
                                },
                                Some(boot_uuid) => match walk(root.source, facts.parents, 0) {
                                    Walk::Ask { device } => TargetStepView::FindParents { device },
                                    Walk::Ambiguous { first, second } => TargetStepView::Fail {
                                        error: InstallErrorView::MultipleParents { first, second },
                                    },
                                    Walk::Top { device } => {
                                        let boot_spec = boot_mount(opts.boot_mount_spec, boot_uuid);
                                        match checked_root_setup(
                                            device,
                                            opts.root_path,
                                            boot_spec,
                                            target_kargs(root_source, boot_spec.source),
                                        ) {
                                            Ok(root) => TargetStepView::Deploy { root },
                                            Err(error) => TargetStepView::Fail { error },
                                        }
                                    },
                                },
                            },
                        },
                    },
                },
            },
        }
    }
}

fn fail(error: InstallError) -> (step: TargetStep)
    ensures
        step@ == (TargetStepView::Fail { error: error@ }),
{
    TargetStep::Fail { error }
}

fn ready_target(
    device: String,
    opts: &InstallTargetFilesystemOpts,
    root_source: &str,
    boot_uuid: &str,
) -> (step: TargetStep)
    ensures
        step@ == ({
            let boot_spec = boot_mount(opts@.boot_mount_spec, boot_uuid@);
            match checked_root_setup(
                device@,
                opts@.root_path,
                boot_spec,
                target_kargs(root_source@, boot_spec.source),
            ) {
                Ok(root) => TargetStepView::Deploy { root },
                Err(error) => TargetStepView::Fail { error },
            }
        }),
{
    let boot = match &opts.boot_mount_spec {
        Some(source) => MountSpec::new(source.as_str(), "/boot"),
        None => MountSpec::new_uuid_src(boot_uuid, "/boot"),
    };
    let mut rootarg = String::from_str("root=");
    rootarg.append(root_source);
    let mut bootarg = String::from_str("boot=");
    bootarg.append(boot.source.as_str());
    let mut kargs: Vec<String> = Vec::new();
    kargs.push(rootarg);
    kargs.push(String::from_str("rw"));
    kargs.push(bootarg);
    assert(kargs.deep_view() =~= target_kargs(root_source@, boot@.source));
    match RootSetup::new(device, opts.root_path.clone(), boot, kargs) {
        Ok(root) => TargetStep::Deploy { root },
        Err(error) => TargetStep::Fail { error },
    }
}

/// Says what the installer has to do next, given the path of the target's
/// `boot` directory.
pub fn next_step_with_boot_path(
    opts: &InstallTargetFilesystemOpts,
    facts: &TargetFacts,
    boot_path: &str,
) -> (step: TargetStep)
    ensures
        step@ == next_target_step(opts@, facts@, boot_path@),
{
    if opts.wipe {
        if !facts.wiped {
            return TargetStep::WipeRoot;
        }
    } else {
        match &facts.listing {
            None => {
                return TargetStep::ListRoot;
            },
            Some(listing) => match require_empty_rootdir(&listing.root, &listing.boot) {
                Err(error) => {
                    return fail(error);
                },
                Ok(()) => {},
            },
        }
    }
    let root = match &facts.root {
        None => {
            return TargetStep::InspectRoot;
        },
        Some(root) => root,
    };
    let root_source: String = match &opts.root_mount_spec {
        Some(source) => source.clone(),
        None => match &root.uuid {
            Some(uuid) => {
                let mut source = String::from_str("UUID=");
                source.append(uuid.as_str());
                source
            },
            None => {
                return fail(InstallError::MissingRootUuid);
            },
        },
    };
    let ids = match facts.devices {
        None => {
            return TargetStep::CompareDevices;
        },
        Some(ids) => ids,
    };
    match ids.boot {
        None => {
            return fail(InstallError::MissingBootDirectory);
        },
        Some(boot) => {
            if boot == ids.root {
                return fail(InstallError::BootNotSeparate);
            }
        },
    }
    let boot = match &facts.boot {
        None => {
            return TargetStep::InspectBoot { path: boot_path.to_owned() };
        },
        Some(boot) => boot,
    };
    let boot_uuid = match &boot.uuid {
        None => {
            return fail(InstallError::MissingBootUuid);
        },
        Some(uuid) => uuid,
    };
    match backing_device(root.source.as_str(), &facts.parents) {
        Err(error) => fail(error),
        Ok(Resolution::Ask { device }) => TargetStep::FindParents { device },
        Ok(Resolution::Top { device }) => ready_target(
            device,
            opts,
            root_source.as_str(),
            boot_uuid.as_str(),
        ),
    }
}

/// Says what the installer has to do next to install to the filesystem
/// mounted at `opts.root_path`, given what it has found out so far.
pub fn install_to_filesystem(opts: &InstallTargetFilesystemOpts, facts: &TargetFacts) -> (step:
    TargetStep)
    ensures
        step@ == next_target_step(opts@, facts@, joined_path(opts@.root_path, "boot"@)),
{
    let boot_path = join(opts.root_path.as_str(), "boot");
    next_step_with_boot_path(opts, facts, boot_path.as_str())
}

impl TargetFacts {
    /// Nothing is known yet.
    pub fn new() -> (facts: TargetFacts)
        ensures
            facts@ == (TargetFactsView {
                wiped: false,
                listing: None,
                root: None,
                devices: None,
                boot: None,
                parents: Seq::empty(),
            }),
    {
        let facts = TargetFacts {
            wiped: false,
            listing: None,
            root: None,
            devices: None,
            boot: None,
            parents: Vec::new(),
        };
        assert(facts.parents.deep_view() =~= Seq::<Seq<Seq<char>>>::empty());
        facts
    }
}

/// Where root and boot are found on the same filesystem the installation
/// fails with a topology error, whatever else is known or found out later:
/// deployment is never reached.
pub proof fn lemma_same_device_refused(
    opts: FilesystemOptsView,
    facts: TargetFactsView,
    boot_path: Seq<char>,
)
    requires
        facts.devices matches Some(ids) && ids.boot == Some(ids.root),
    ensures
        !(next_target_step(opts, facts, boot_path) is Deploy),
        !(next_target_step(opts, facts, boot_path) is InspectBoot),
        !(next_target_step(opts, facts, boot_path) is FindParents),
        facts.root is Some && (opts.wipe ==> facts.wiped) && (!opts.wipe ==> facts.listing is Some
            && listing_offence(facts.listing) is None) && root_mount_source(
            opts.root_mount_spec,
            facts.root->0.uuid,
        ) is Ok ==> next_target_step(opts, facts, boot_path) == (TargetStepView::Fail {
            error: InstallErrorView::BootNotSeparate,
        }) && InstallErrorView::BootNotSeparate.kind() == ErrorKind::Topology,
{
}

/// A target is handed to deployment only after its root was wiped or found
/// empty, and with root and boot on distinct filesystems.
pub proof fn lemma_deploy_implies_checked(
    opts: FilesystemOptsView,
    facts: TargetFactsView,
    boot_path: Seq<char>,
)
    requires
        next_target_step(opts, facts, boot_path) is Deploy,
    ensures
        opts.wipe ==> facts.wiped,
        !opts.wipe ==> facts.listing is Some && listing_offence(facts.listing) is None,
        facts.devices matches Some(ids) && ids.boot matches Some(boot) && boot != ids.root,
        next_target_step(opts, facts, boot_path)->root.well_formed(),
        next_target_step(opts, facts, boot_path)->root.kargs.len() == 3,
        next_target_step(opts, facts, boot_path)->root.kargs[1] == "rw"@,
{
}

} // verus!
